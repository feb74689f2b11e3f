//! The texts that the web client computes: titles, class names, and the
//! lines of the error log as they are shown.

use crate::text::{decimal, decimal_text, to_chars};
use vstd::prelude::*;
use vstd::string::*;

verus! {

/// The title of the error log: with the number of errors once there are
/// any.
pub open spec fn error_title_spec(count: nat) -> Seq<char> {
    if count > 0 {
        "Error Log ("@ + decimal_text(count) + ")"@
    } else {
        "Error Log"@
    }
}

pub fn error_title(count: usize) -> (out: String)
    ensures
        out@ == error_title_spec(count as nat),
{
    if count > 0 {
        let mut out = String::from_str("Error Log (");
        let written = decimal(count);
        out.append(written.as_str());
        out.append(")");
        out
    } else {
        String::from_str("Error Log")
    }
}

/// `s` with every backslash that is followed by `letter` replaced, together
/// with the letter, by `with`; read from the left, without going back.
pub open spec fn unescaped(s: Seq<char>, letter: char, with: Seq<char>) -> Seq<char>
    decreases s.len(),
{
    if s.len() == 0 {
        s
    } else if s.len() >= 2 && s[0] == '\\' && s[1] == letter {
        with + unescaped(s.subrange(2, s.len() as int), letter, with)
    } else {
        seq![s[0]] + unescaped(s.subrange(1, s.len() as int), letter, with)
    }
}

/// A line of the log as it is shown: the two-character escapes for a line
/// break and then those for a tab turned into the characters they stand for.
pub open spec fn unescaped_log(s: Seq<char>) -> Seq<char> {
    unescaped(unescaped(s, 'n', seq!['\n']), 't', seq!['\t'])
}

/// Replaces every backslash followed by `letter`.
pub fn replace_escape(s: &str, letter: char, with: &str) -> (out: String)
    ensures
        out@ == unescaped(s@, letter, with@),
{
    let chars = to_chars(s);
    let len = chars.len();
    let mut out = String::new();
    let mut i: usize = 0;
    proof {
        assert(s@.subrange(0, len as int) =~= s@);
        assert(out@ + unescaped(s@, letter, with@) =~= unescaped(s@, letter, with@));
    }
    while i < len
        invariant
            i <= len,
            len == s@.len(),
            chars@ == s@,
            out@ + unescaped(s@.subrange(i as int, len as int), letter, with@) == unescaped(
                s@,
                letter,
                with@,
            ),
        decreases len - i,
    {
        let ghost rest = s@.subrange(i as int, len as int);
        if i + 1 < len && chars[i] == '\\' && chars[i + 1] == letter {
            proof {
                assert(rest.subrange(2, rest.len() as int) =~= s@.subrange(i + 2, len as int));
                assert(out@ + (with@ + unescaped(s@.subrange(i + 2, len as int), letter, with@))
                    =~= (out@ + with@) + unescaped(s@.subrange(i + 2, len as int), letter, with@));
            }
            out.append(with);
            i += 2;
        } else {
            proof {
                assert(rest.subrange(1, rest.len() as int) =~= s@.subrange(i + 1, len as int));
                assert(s@.subrange(i as int, i + 1) =~= seq![s@[i as int]]);
                assert(out@ + (seq![rest[0]] + unescaped(
                    s@.subrange(i + 1, len as int),
                    letter,
                    with@,
                )) =~= (out@ + s@.subrange(i as int, i + 1)) + unescaped(
                    s@.subrange(i + 1, len as int),
                    letter,
                    with@,
                ));
            }
            out.append(s.substring_char(i, i + 1));
            i += 1;
        }
    }
    assert(out@ + Seq::<char>::empty() =~= out@);
    out
}

/// Turns the escapes of a logged line into the characters they stand for.
pub fn unescape_log(s: &str) -> (out: String)
    ensures
        out@ == unescaped_log(s@),
{
    proof {
        reveal_strlit("\n");
        reveal_strlit("\t");
        assert("\n"@ =~= seq!['\n']);
        assert("\t"@ =~= seq!['\t']);
    }
    let lines = replace_escape(s, 'n', "\n");
    replace_escape(lines.as_str(), 't', "\t")
}

/// `s` with every `from` replaced by `with`.
pub open spec fn replaced(s: Seq<char>, from: char, with: Seq<char>, n: nat) -> Seq<char>
    decreases n,
{
    if n == 0 {
        Seq::empty()
    } else {
        replaced(s, from, with, (n - 1) as nat) + if s[n - 1] == from {
            with
        } else {
            seq![s[n - 1]]
        }
    }
}

/// The name of a slider: its label with a hyphen for every space.
pub open spec fn slider_name_spec(label: Seq<char>) -> Seq<char> {
    replaced(label, ' ', seq!['-'], label.len())
}

pub fn slider_name(label: &str) -> (out: String)
    ensures
        out@ == slider_name_spec(label@),
{
    let chars = to_chars(label);
    let len = chars.len();
    let mut out = String::new();
    let mut i: usize = 0;
    proof {
        reveal_strlit("-");
        assert("-"@ =~= seq!['-']);
    }
    while i < len
        invariant
            i <= len,
            len == label@.len(),
            chars@ == label@,
            "-"@ == seq!['-'],
            out@ == replaced(label@, ' ', seq!['-'], i as nat),
        decreases len - i,
    {
        if chars[i] == ' ' {
            out.append("-");
        } else {
            assert(label@.subrange(i as int, i + 1) =~= seq![label@[i as int]]);
            out.append(label.substring_char(i, i + 1));
        }
        i += 1;
    }
    out
}

/// How long a tooltip waits before it shows.
#[derive(Clone, Copy, Debug, PartialEq, Eq, Structural)]
pub enum ToolTipDelay {
    NoDelay,
    Short,
    Medium,
    Long,
}

/// On which side of its target a tooltip shows.
#[derive(Clone, Copy, Debug, PartialEq, Eq, Structural)]
pub enum ToolTipPosition {
    Top,
    Bottom,
    Left,
    Right,
}

pub open spec fn delay_class(delay: ToolTipDelay) -> Seq<char> {
    match delay {
        ToolTipDelay::NoDelay => "delay-0"@,
        ToolTipDelay::Short => "delay-200"@,
        ToolTipDelay::Medium => "delay-500"@,
        ToolTipDelay::Long => "delay-1000"@,
    }
}

pub open spec fn position_class(position: ToolTipPosition) -> Seq<char> {
    match position {
        ToolTipPosition::Top => "bottom-full left-1/2 z-20 mb-3 -translate-x-1/2"@,
        ToolTipPosition::Bottom => "left-1/2 top-full z-20 mt-3 -translate-x-1/2"@,
        ToolTipPosition::Left => " right-full top-1/2 z-20 mr-3 -translate-y-1/2"@,
        ToolTipPosition::Right => "left-full top-1/2 z-20 ml-3 -translate-y-1/2"@,
    }
}

pub open spec fn content_position_class(position: ToolTipPosition) -> Seq<char> {
    match position {
        ToolTipPosition::Top => "-bottom-1 left-1/2 -z-10 h-2 w-2 -translate-x-1/2"@,
        ToolTipPosition::Bottom => "-top-1 left-1/2 -z-10 h-2 w-2 -translate-x-1/2"@,
        ToolTipPosition::Left => "-right-1 top-1/2 -z-10 h-2 w-2 -translate-y-1/2"@,
        ToolTipPosition::Right => "-left-1 top-1/2 -z-10 h-2 w-2 -translate-y-1/2"@,
    }
}

pub const TOOLTIP_HEAD: &'static str = "\n        absolute ";

pub const TOOLTIP_BODY: &'static str =
    " whitespace-nowrap rounded-[5px] bg-white px-3 py-2 text-sm font-medium text-dark transition-opacity ";

pub const TOOLTIP_TAIL: &'static str =
    " duration-150 opacity-0 shadow-lg group-hover:opacity-100 dark:bg-dark-2 dark:text-white dark:shadow-none\n        ";

pub const CONTENT_TAIL: &'static str = " rotate-45 bg-white dark:bg-dark-2\n        ";

/// The classes of a tooltip's bubble.
pub open spec fn tooltip_class_spec(position: ToolTipPosition, delay: ToolTipDelay) -> Seq<char> {
    TOOLTIP_HEAD@ + position_class(position) + TOOLTIP_BODY@ + delay_class(delay) + TOOLTIP_TAIL@
}

/// The classes of a tooltip's arrow.
pub open spec fn content_class_spec(position: ToolTipPosition) -> Seq<char> {
    TOOLTIP_HEAD@ + content_position_class(position) + CONTENT_TAIL@
}

impl ToolTipDelay {
    /// The class that sets the delay.
    pub fn class(&self) -> (out: &'static str)
        ensures
            out@ == delay_class(*self),
    {
        match self {
            ToolTipDelay::NoDelay => "delay-0",
            ToolTipDelay::Short => "delay-200",
            ToolTipDelay::Medium => "delay-500",
            ToolTipDelay::Long => "delay-1000",
        }
    }
}

impl ToolTipPosition {
    pub fn get_position(&self) -> (out: String)
        ensures
            out@ == position_class(*self),
    {
        match self {
            ToolTipPosition::Top => String::from_str(
                "bottom-full left-1/2 z-20 mb-3 -translate-x-1/2",
            ),
            ToolTipPosition::Bottom => String::from_str(
                "left-1/2 top-full z-20 mt-3 -translate-x-1/2",
            ),
            ToolTipPosition::Left => String::from_str(
                " right-full top-1/2 z-20 mr-3 -translate-y-1/2",
            ),
            ToolTipPosition::Right => String::from_str(
                "left-full top-1/2 z-20 ml-3 -translate-y-1/2",
            ),
        }
    }

    pub fn get_content_position(&self) -> (out: String)
        ensures
            out@ == content_position_class(*self),
    {
        match self {
            ToolTipPosition::Top => String::from_str(
                "-bottom-1 left-1/2 -z-10 h-2 w-2 -translate-x-1/2",
            ),
            ToolTipPosition::Bottom => String::from_str(
                "-top-1 left-1/2 -z-10 h-2 w-2 -translate-x-1/2",
            ),
            ToolTipPosition::Left => String::from_str(
                "-right-1 top-1/2 -z-10 h-2 w-2 -translate-y-1/2",
            ),
            ToolTipPosition::Right => String::from_str(
                "-left-1 top-1/2 -z-10 h-2 w-2 -translate-y-1/2",
            ),
        }
    }
}

/// Writes the classes of a tooltip's bubble.
pub fn tooltip_class(position: ToolTipPosition, delay: ToolTipDelay) -> (out: String)
    ensures
        out@ == tooltip_class_spec(position, delay),
{
    let mut out = String::from_str(TOOLTIP_HEAD);
    let place = position.get_position();
    out.append(place.as_str());
    out.append(TOOLTIP_BODY);
    out.append(delay.class());
    out.append(TOOLTIP_TAIL);
    out
}

/// Writes the classes of a tooltip's arrow.
pub fn content_class(position: ToolTipPosition) -> (out: String)
    ensures
        out@ == content_class_spec(position),
{
    let mut out = String::from_str(TOOLTIP_HEAD);
    let place = position.get_content_position();
    out.append(place.as_str());
    out.append(CONTENT_TAIL);
    out
}

} // verus!
