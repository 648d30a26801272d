//! Plain-text extraction from HTML, for the page-fetch tool: tags are
//! dropped, script and style elements are dropped with their contents, runs
//! of whitespace collapse to a single space, and the result is trimmed.
//! Tag names are matched ASCII-case-insensitively.

use vstd::prelude::*;
use vstd::string::StrSliceExecFns;

verus! {

/// Whether the character has the Unicode whitespace property.
pub uninterp spec fn is_unicode_ws(c: char) -> bool;

/// Relies on char::is_whitespace: whether the character has the Unicode
/// whitespace property; the result depends on the character alone.
#[verifier::external_body]
fn char_is_whitespace(c: char) -> (r: bool)
    ensures
        r == is_unicode_ws(c),
{
    c.is_whitespace()
}

/// Relies on String::push: appends one character to the string.
#[verifier::external_body]
fn push_char(s: &mut String, c: char)
    ensures
        final(s)@ == old(s)@.push(c),
{
    s.push(c)
}

/// The character's code point, with ASCII upper case folded to lower case.
pub open spec fn lower_code(c: char) -> int {
    if 65 <= c as u32 && c as u32 <= 90 {
        c as int + 32
    } else {
        c as int
    }
}

fn low(c: char) -> (r: u32)
    ensures
        r == lower_code(c),
{
    let u = c as u32;
    if 65 <= u && u <= 90 {
        u + 32
    } else {
        u
    }
}

/// `<script` at position `i`, ASCII-case-insensitively.
pub open spec fn script_open_at(s: Seq<char>, i: int) -> bool {
    &&& 0 <= i
    &&& i + 7 <= s.len()
    &&& lower_code(s[i]) == '<' as u32
    &&& lower_code(s[i + 1]) == 's' as u32
    &&& lower_code(s[i + 2]) == 'c' as u32
    &&& lower_code(s[i + 3]) == 'r' as u32
    &&& lower_code(s[i + 4]) == 'i' as u32
    &&& lower_code(s[i + 5]) == 'p' as u32
    &&& lower_code(s[i + 6]) == 't' as u32
}

/// `<style` at position `i`, ASCII-case-insensitively.
pub open spec fn style_open_at(s: Seq<char>, i: int) -> bool {
    &&& 0 <= i
    &&& i + 6 <= s.len()
    &&& lower_code(s[i]) == '<' as u32
    &&& lower_code(s[i + 1]) == 's' as u32
    &&& lower_code(s[i + 2]) == 't' as u32
    &&& lower_code(s[i + 3]) == 'y' as u32
    &&& lower_code(s[i + 4]) == 'l' as u32
    &&& lower_code(s[i + 5]) == 'e' as u32
}

/// `</script>` at position `i`, ASCII-case-insensitively.
pub open spec fn script_close_at(s: Seq<char>, i: int) -> bool {
    &&& 0 <= i
    &&& i + 9 <= s.len()
    &&& lower_code(s[i]) == '<' as u32
    &&& lower_code(s[i + 1]) == '/' as u32
    &&& lower_code(s[i + 2]) == 's' as u32
    &&& lower_code(s[i + 3]) == 'c' as u32
    &&& lower_code(s[i + 4]) == 'r' as u32
    &&& lower_code(s[i + 5]) == 'i' as u32
    &&& lower_code(s[i + 6]) == 'p' as u32
    &&& lower_code(s[i + 7]) == 't' as u32
    &&& lower_code(s[i + 8]) == '>' as u32
}

/// `</style>` at position `i`, ASCII-case-insensitively.
pub open spec fn style_close_at(s: Seq<char>, i: int) -> bool {
    &&& 0 <= i
    &&& i + 8 <= s.len()
    &&& lower_code(s[i]) == '<' as u32
    &&& lower_code(s[i + 1]) == '/' as u32
    &&& lower_code(s[i + 2]) == 's' as u32
    &&& lower_code(s[i + 3]) == 't' as u32
    &&& lower_code(s[i + 4]) == 'y' as u32
    &&& lower_code(s[i + 5]) == 'l' as u32
    &&& lower_code(s[i + 6]) == 'e' as u32
    &&& lower_code(s[i + 7]) == '>' as u32
}

/// Scanner state: inside a tag, inside a script element, inside a style
/// element, and whether the last emitted character was a collapsed space.
pub struct ScanState {
    pub in_tag: bool,
    pub in_script: bool,
    pub in_style: bool,
    pub last_ws: bool,
}

/// A scanner state from its four flags.
pub open spec fn scan_state(in_tag: bool, in_script: bool, in_style: bool, last_ws: bool) -> ScanState {
    ScanState { in_tag, in_script, in_style, last_ws }
}

/// The state a scan starts in: outside everything, nothing emitted.
pub open spec fn initial_state() -> ScanState {
    scan_state(false, false, false, false)
}

/// The text emitted from position `i` onward in state `st`, before
/// trimming: one branch per scanner rule, in match order.
pub open spec fn collapse_from(s: Seq<char>, i: int, st: ScanState) -> Seq<char>
    decreases s.len() - i,
{
    if i < 0 || i >= s.len() {
        Seq::empty()
    } else if !st.in_tag && i + 7 < s.len() && script_open_at(s, i) {
        collapse_from(s, i + 1, scan_state(true, true, st.in_style, st.last_ws))
    } else if !st.in_tag && i + 6 < s.len() && style_open_at(s, i) {
        collapse_from(s, i + 1, scan_state(true, st.in_script, true, st.last_ws))
    } else if st.in_script && script_close_at(s, i) {
        collapse_from(s, i + 9, scan_state(st.in_tag, false, st.in_style, st.last_ws))
    } else if st.in_style && style_close_at(s, i) {
        collapse_from(s, i + 8, scan_state(st.in_tag, st.in_script, false, st.last_ws))
    } else if s[i] == '<' {
        collapse_from(s, i + 1, scan_state(true, st.in_script, st.in_style, st.last_ws))
    } else if s[i] == '>' {
        collapse_from(s, i + 1, scan_state(false, st.in_script, st.in_style, st.last_ws))
    } else if st.in_tag || st.in_script || st.in_style {
        collapse_from(s, i + 1, st)
    } else if is_unicode_ws(s[i]) {
        if st.last_ws {
            collapse_from(s, i + 1, st)
        } else {
            seq![' '] + collapse_from(s, i + 1, scan_state(false, st.in_script, st.in_style, true))
        }
    } else {
        seq![s[i]] + collapse_from(s, i + 1, scan_state(false, st.in_script, st.in_style, false))
    }
}

/// `s` with every leading and trailing space removed.
pub open spec fn trim_spaces(s: Seq<char>) -> Seq<char>
    decreases s.len(),
{
    if s.len() > 0 && s[0] == ' ' {
        trim_spaces(s.drop_first())
    } else if s.len() > 0 && s.last() == ' ' {
        trim_spaces(s.drop_last())
    } else {
        s
    }
}

/// The plain text of an HTML document: the scan's output, trimmed.
pub open spec fn strip_spec(s: Seq<char>) -> Seq<char> {
    trim_spaces(collapse_from(s, 0, initial_state()))
}

fn to_char_vec(s: &str) -> (r: Vec<char>)
    ensures
        r@ == s@,
{
    let n: usize = s.unicode_len();
    let mut out: Vec<char> = Vec::new();
    let mut i: usize = 0;
    proof {
        assert(out@ =~= s@.subrange(0, 0));
    }
    while i < n
        invariant
            i <= n,
            n == s@.len(),
            out@ == s@.subrange(0, i as int),
        decreases n - i,
    {
        out.push(s.get_char(i));
        proof {
            assert(out@ =~= s@.subrange(0, i as int + 1));
        }
        i = i + 1;
    }
    proof {
        assert(s@.subrange(0, n as int) =~= s@);
    }
    out
}

fn is_script_open(c: &Vec<char>, i: usize) -> (r: bool)
    requires
        i + 7 <= c@.len() <= usize::MAX,
    ensures
        r == script_open_at(c@, i as int),
{
    low(c[i]) == '<' as u32 && low(c[i + 1]) == 's' as u32 && low(c[i + 2]) == 'c' as u32
        && low(c[i + 3]) == 'r' as u32 && low(c[i + 4]) == 'i' as u32 && low(c[i + 5]) == 'p' as u32
        && low(c[i + 6]) == 't' as u32
}

fn is_style_open(c: &Vec<char>, i: usize) -> (r: bool)
    requires
        i + 6 <= c@.len() <= usize::MAX,
    ensures
        r == style_open_at(c@, i as int),
{
    low(c[i]) == '<' as u32 && low(c[i + 1]) == 's' as u32 && low(c[i + 2]) == 't' as u32
        && low(c[i + 3]) == 'y' as u32 && low(c[i + 4]) == 'l' as u32 && low(c[i + 5]) == 'e' as u32
}

fn is_script_close(c: &Vec<char>, i: usize) -> (r: bool)
    requires
        i + 9 <= c@.len() <= usize::MAX,
    ensures
        r == script_close_at(c@, i as int),
{
    low(c[i]) == '<' as u32 && low(c[i + 1]) == '/' as u32 && low(c[i + 2]) == 's' as u32
        && low(c[i + 3]) == 'c' as u32 && low(c[i + 4]) == 'r' as u32 && low(c[i + 5]) == 'i' as u32
        && low(c[i + 6]) == 'p' as u32 && low(c[i + 7]) == 't' as u32 && low(c[i + 8]) == '>' as u32
}

fn is_style_close(c: &Vec<char>, i: usize) -> (r: bool)
    requires
        i + 8 <= c@.len() <= usize::MAX,
    ensures
        r == style_close_at(c@, i as int),
{
    low(c[i]) == '<' as u32 && low(c[i + 1]) == '/' as u32 && low(c[i + 2]) == 's' as u32
        && low(c[i + 3]) == 't' as u32 && low(c[i + 4]) == 'y' as u32 && low(c[i + 5]) == 'l' as u32
        && low(c[i + 6]) == 'e' as u32 && low(c[i + 7]) == '>' as u32
}

fn chars_to_string(chars: &Vec<char>, start: usize, end: usize) -> (r: String)
    requires
        start <= end <= chars@.len(),
    ensures
        r@ == chars@.subrange(start as int, end as int),
{
    let mut out = String::new();
    let mut i: usize = start;
    proof {
        assert(chars@.subrange(start as int, start as int) =~= out@);
    }
    while i < end
        invariant
            start <= i <= end <= chars@.len(),
            out@ == chars@.subrange(start as int, i as int),
        decreases end - i,
    {
        push_char(&mut out, chars[i]);
        proof {
            assert(out@ =~= chars@.subrange(start as int, i as int + 1));
        }
        i = i + 1;
    }
    out
}

/// Strips tags, script and style contents from an HTML document, collapses
/// whitespace runs to single spaces and trims the ends: exactly
/// [`strip_spec`] of the input.
pub fn strip_html_tags(html: &str) -> (res: String)
    ensures
        res@ == strip_spec(html@),
{
    let chars = to_char_vec(html);
    let n: usize = chars.len();
    let mut out: Vec<char> = Vec::new();
    let mut in_tag = false;
    let mut in_script = false;
    let mut in_style = false;
    let mut last_ws = false;
    let mut i: usize = 0;
    while i < n
        invariant
            i <= n,
            n == chars@.len(),
            chars@ == html@,
            out@ + collapse_from(html@, i as int, scan_state(in_tag, in_script, in_style, last_ws))
                == collapse_from(html@, 0, initial_state()),
        decreases n - i,
    {
        let ghost pre = out@;
        let ghost i0 = i as int;
        let ghost st = scan_state(in_tag, in_script, in_style, last_ws);
        if !in_tag && n - i > 7 && is_script_open(&chars, i) {
            in_script = true;
            in_tag = true;
            i = i + 1;
        } else if !in_tag && n - i > 6 && is_style_open(&chars, i) {
            in_style = true;
            in_tag = true;
            i = i + 1;
        } else if in_script && n - i >= 9 && is_script_close(&chars, i) {
            in_script = false;
            i = i + 9;
        } else if in_style && n - i >= 8 && is_style_close(&chars, i) {
            in_style = false;
            i = i + 8;
        } else if chars[i] == '<' {
            in_tag = true;
            i = i + 1;
        } else if chars[i] == '>' {
            in_tag = false;
            i = i + 1;
        } else if in_tag || in_script || in_style {
            i = i + 1;
        } else if char_is_whitespace(chars[i]) {
            if !last_ws {
                out.push(' ');
                last_ws = true;
            }
            i = i + 1;
        } else {
            out.push(chars[i]);
            last_ws = false;
            i = i + 1;
        }
        proof {
            let here = scan_state(in_tag, in_script, in_style, last_ws);
            assert(pre + collapse_from(html@, i0, st) == collapse_from(
                html@,
                0,
                initial_state(),
            ));
            assert(out@ + collapse_from(html@, i as int, here) =~= collapse_from(
                html@,
                0,
                initial_state(),
            ));
        }
    }
    proof {
        assert(collapse_from(html@, n as int, scan_state(in_tag, in_script, in_style, last_ws))
            =~= Seq::<char>::empty());
        assert(out@ =~= collapse_from(html@, 0, initial_state()));
    }
    let mut start: usize = 0;
    let mut end: usize = out.len();
    proof {
        assert(out@.subrange(0, out@.len() as int) =~= out@);
    }
    while start < end && out[start] == ' '
        invariant
            start <= end <= out@.len(),
            trim_spaces(out@) == trim_spaces(out@.subrange(start as int, end as int)),
        decreases end - start,
    {
        proof {
            assert(out@.subrange(start as int, end as int).drop_first() =~= out@.subrange(
                start as int + 1,
                end as int,
            ));
        }
        start = start + 1;
    }
    while start < end && out[end - 1] == ' '
        invariant
            start <= end <= out@.len(),
            trim_spaces(out@) == trim_spaces(out@.subrange(start as int, end as int)),
            start < end ==> out@[start as int] != ' ',
        decreases end - start,
    {
        proof {
            assert(out@.subrange(start as int, end as int).drop_last() =~= out@.subrange(
                start as int,
                end as int - 1,
            ));
        }
        end = end - 1;
    }
    proof {
        assert(trim_spaces(out@.subrange(start as int, end as int)) == out@.subrange(
            start as int,
            end as int,
        ));
    }
    chars_to_string(&out, start, end)
}

} // verus!
