use vstd::prelude::*;
use vstd::string::*;

verus! {

/// How a worked-solution line is shown. A line that starts with `&` carries
/// a style marker in its second character: `2` for a step heading, `3` for
/// an answer, anything else for the main text colour; other lines are shown
/// unstyled.
#[derive(PartialEq, Eq, Structural, Clone, Copy, Debug)]
pub enum LineStyle {
    Plain,
    Main,
    Secondary,
    Accent,
}

pub open spec fn is_marked(s: Seq<char>) -> bool {
    s.len() > 0 && s[0] == '&'
}

pub open spec fn spec_line_style(s: Seq<char>) -> LineStyle {
    if is_marked(s) {
        if s[1] == '2' {
            LineStyle::Secondary
        } else if s[1] == '3' {
            LineStyle::Accent
        } else {
            LineStyle::Main
        }
    } else {
        LineStyle::Plain
    }
}

/// The text shown: a marked line loses its two marker characters.
pub open spec fn spec_line_text(s: Seq<char>) -> Seq<char> {
    if is_marked(s) {
        s.subrange(2, s.len() as int)
    } else {
        s
    }
}

/// Splits a worked-solution line into its style and the text to show. A
/// marked line needs a one-byte (ASCII) marker character after the `&`.
pub fn classify_work_line(s: &str) -> (r: (LineStyle, String))
    requires
        is_marked(s@) ==> s@.len() >= 2 && (s@[1] as u32) < 128,
    ensures
        r.0 == spec_line_style(s@),
        r.1@ == spec_line_text(s@),
{
    let n = s.unicode_len();
    if n > 0 && s.get_char(0) == '&' {
        let marker = s.get_char(1);
        let style = if marker == '2' {
            LineStyle::Secondary
        } else if marker == '3' {
            LineStyle::Accent
        } else {
            LineStyle::Main
        };
        (style, s.substring_char(2, n).to_owned())
    } else {
        (LineStyle::Plain, s.to_owned())
    }
}

} // verus!
