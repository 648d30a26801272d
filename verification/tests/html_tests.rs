use lan_sync::html::strip_html_tags;

#[test]
fn removes_tags_and_keeps_text() {
    assert_eq!(strip_html_tags("<p>Hello <b>world</b></p>"), "Hello world");
}

#[test]
fn collapses_whitespace_runs() {
    assert_eq!(strip_html_tags("a \n\t  b"), "a b");
}

#[test]
fn trims_the_ends() {
    assert_eq!(strip_html_tags("  <p> padded </p>  "), "padded");
}

#[test]
fn drops_script_contents() {
    assert_eq!(
        strip_html_tags("before<script>var x = \"<span>\";</script>after"),
        "beforeafter"
    );
}

#[test]
fn drops_style_contents() {
    assert_eq!(strip_html_tags("a<style>p { color: red; }</style>b"), "ab");
}

#[test]
fn tag_names_match_case_insensitively() {
    assert_eq!(strip_html_tags("x<SCRIPT>hidden</SCRIPT>y"), "xy");
    assert_eq!(strip_html_tags("x<StYlE>h1 {}</sTyLe>y"), "xy");
}

#[test]
fn plain_text_passes_through() {
    assert_eq!(strip_html_tags("no markup here"), "no markup here");
}

#[test]
fn empty_input_gives_empty_output() {
    assert_eq!(strip_html_tags(""), "");
}

#[test]
fn unterminated_tag_is_dropped() {
    assert_eq!(strip_html_tags("a<b"), "a");
}

#[test]
fn whitespace_between_tags_collapses() {
    assert_eq!(strip_html_tags("<div>a</div> \n <div>b</div>"), "a b");
}
