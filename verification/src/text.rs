//! Character-level helpers on strings, each with an exact contract over
//! `Seq<char>`.

use vstd::prelude::*;
use crate::table::Modeled;
use vstd::string::*;

verus! {

/// Number of leading characters of `s` equal to `c`.
pub open spec fn leading_run(s: Seq<char>, c: char) -> nat
    decreases s.len(),
{
    if s.len() > 0 && s[0] == c {
        1 + leading_run(s.drop_first(), c)
    } else {
        0
    }
}

/// Number of trailing characters of `s` equal to `c`.
pub open spec fn trailing_run(s: Seq<char>, c: char) -> nat
    decreases s.len(),
{
    if s.len() > 0 && s.last() == c {
        1 + trailing_run(s.drop_last(), c)
    } else {
        0
    }
}

/// `s` without its leading `<` characters and, after that, without its
/// trailing `>` characters.
pub open spec fn trimmed_tag(s: Seq<char>) -> Seq<char> {
    let rest = s.subrange(leading_run(s, '<') as int, s.len() as int);
    rest.subrange(0, rest.len() - trailing_run(rest, '>'))
}

/// Whether `needle` occurs in `hay` as a run of neighbouring characters.
pub open spec fn contains_text(hay: Seq<char>, needle: Seq<char>) -> bool {
    exists|i: int| occurs_at(hay, needle, i)
}

pub open spec fn occurs_at(hay: Seq<char>, needle: Seq<char>, i: int) -> bool {
    0 <= i && i + needle.len() <= hay.len() && hay.subrange(i, i + needle.len()) == needle
}

/// A run of `c` at the front of `s` that stops at `n` is the leading run.
pub proof fn lemma_leading_run_is(s: Seq<char>, c: char, n: nat)
    requires
        n <= s.len(),
        forall|i: int| 0 <= i < n ==> s[i] == c,
        n < s.len() ==> s[n as int] != c,
    ensures
        leading_run(s, c) == n,
    decreases n,
{
    if n > 0 {
        let t = s.drop_first();
        assert forall|i: int| 0 <= i < n - 1 implies t[i] == c by {
            assert(t[i] == s[i + 1]);
        }
        if n - 1 < t.len() {
            assert(t[n - 1] == s[n as int]);
        }
        lemma_leading_run_is(t, c, (n - 1) as nat);
    }
}

/// A run of `c` at the back of `s` that stops after `n` is the trailing run.
pub proof fn lemma_trailing_run_is(s: Seq<char>, c: char, n: nat)
    requires
        n <= s.len(),
        forall|i: int| s.len() - n <= i < s.len() ==> s[i] == c,
        n < s.len() ==> s[s.len() - n - 1] != c,
    ensures
        trailing_run(s, c) == n,
    decreases n,
{
    if n > 0 {
        let t = s.drop_last();
        assert forall|i: int| t.len() - (n - 1) <= i < t.len() implies t[i] == c by {
            assert(t[i] == s[i]);
        }
        if n - 1 < t.len() {
            assert(t[t.len() - (n - 1) - 1] == s[s.len() - n - 1]);
        }
        lemma_trailing_run_is(t, c, (n - 1) as nat);
    }
}

/// Removes every leading `<` and then every trailing `>`, as an IRI written
/// between angle brackets requires before it is parsed.
pub fn trim_tag_circumfix(input: &String) -> (out: String)
    ensures
        out@ == trimmed_tag(input@),
{
    let s = input.as_str();
    let len = s.unicode_len();
    let mut start: usize = 0;
    while start < len && s.get_char(start) == '<'
        invariant
            start <= len,
            len == s@.len(),
            forall|i: int| 0 <= i < start ==> s@[i] == '<',
        decreases len - start,
    {
        start += 1;
    }
    let mut end: usize = len;
    while end > start && s.get_char(end - 1) == '>'
        invariant
            start <= end <= len,
            len == s@.len(),
            forall|i: int| end <= i < len ==> s@[i] == '>',
        decreases end,
    {
        end -= 1;
    }
    proof {
        lemma_leading_run_is(s@, '<', start as nat);
        let rest = s@.subrange(start as int, len as int);
        assert forall|i: int| rest.len() - (len - end) <= i < rest.len() implies rest[i] == '>' by {
            assert(rest[i] == s@[i + start]);
        }
        if len - end < rest.len() {
            assert(rest[rest.len() - (len - end) - 1] == s@[end - 1]);
        }
        lemma_trailing_run_is(rest, '>', (len - end) as nat);
        assert(rest.subrange(0, rest.len() - (len - end)) =~= s@.subrange(start as int, end as int));
    }
    String::from_str(s.substring_char(start, end))
}

/// The characters of a string, one by one.
pub fn to_chars(s: &str) -> (out: Vec<char>)
    ensures
        out@ == s@,
{
    let len = s.unicode_len();
    let mut out: Vec<char> = Vec::new();
    let mut i: usize = 0;
    while i < len
        invariant
            i <= len,
            len == s@.len(),
            out@ == s@.subrange(0, i as int),
        decreases len - i,
    {
        out.push(s.get_char(i));
        assert(out@ =~= s@.subrange(0, i + 1));
        i += 1;
    }
    assert(out@ =~= s@);
    out
}

/// Whether `needle` stands in `hay` at place `at`.
fn matches_at(hay: &Vec<char>, needle: &Vec<char>, at: usize) -> (out: bool)
    requires
        at + needle@.len() <= hay@.len(),
    ensures
        out == occurs_at(hay@, needle@, at as int),
{
    let mut j: usize = 0;
    while j < needle.len()
        invariant
            j <= needle.len(),
            at + needle.len() <= hay.len(),
            forall|k: int| 0 <= k < j ==> hay@[at + k] == needle@[k],
        decreases needle.len() - j,
    {
        if hay[at + j] != needle[j] {
            proof {
                let part = hay@.subrange(at as int, at + needle@.len());
                assert(part[j as int] == hay@[at + j]);
            }
            return false;
        }
        j += 1;
    }
    assert(hay@.subrange(at as int, at + needle@.len()) =~= needle@);
    true
}

/// Whether `needle` occurs in `hay`.
pub fn text_contains(hay: &str, needle: &str) -> (out: bool)
    ensures
        out == contains_text(hay@, needle@),
{
    let hay_chars = to_chars(hay);
    let needle_chars = to_chars(needle);
    if needle_chars.len() > hay_chars.len() {
        return false;
    }
    let last = hay_chars.len() - needle_chars.len();
    let mut i: usize = 0;
    loop
        invariant
            i <= last,
            last == hay_chars.len() - needle_chars.len(),
            hay_chars@ == hay@,
            needle_chars@ == needle@,
            forall|k: int| 0 <= k < i ==> !occurs_at(hay@, needle@, k),
        decreases last - i,
    {
        if matches_at(&hay_chars, &needle_chars, i) {
            return true;
        }
        if i == last {
            return false;
        }
        i += 1;
    }
}

/// The place of the last `c` in `s`, if there is one.
pub open spec fn last_place(s: Seq<char>, c: char) -> Option<int>
    decreases s.len(),
{
    if s.len() == 0 {
        None
    } else if s.last() == c {
        Some(s.len() - 1)
    } else {
        last_place(s.drop_last(), c)
    }
}

/// What follows the last `/` of a path, if the path has one.
pub open spec fn last_segment_spec(path: Seq<char>) -> Option<Seq<char>> {
    match last_place(path, '/') {
        Some(i) => Some(path.subrange(i + 1, path.len() as int)),
        None => None,
    }
}

pub proof fn lemma_last_place_is(s: Seq<char>, c: char, i: int)
    requires
        -1 <= i < s.len(),
        i >= 0 ==> s[i] == c,
        forall|k: int| i < k < s.len() ==> s[k] != c,
    ensures
        last_place(s, c) == if i >= 0 {
            Some(i)
        } else {
            None::<int>
        },
    decreases s.len(),
{
    if s.len() > 0 && s.last() != c {
        lemma_last_place_is(s.drop_last(), c, i);
    }
}

/// The last segment of a path.
pub fn last_segment(path: &str) -> (out: Option<String>)
    ensures
        out.model() == last_segment_spec(path@),
{
    let len = path.unicode_len();
    let mut end: usize = len;
    while end > 0 && path.get_char(end - 1) != '/'
        invariant
            end <= len,
            len == path@.len(),
            forall|k: int| end <= k < len ==> path@[k] != '/',
        decreases end,
    {
        end -= 1;
    }
    proof {
        lemma_last_place_is(path@, '/', end - 1);
    }
    if end == 0 {
        None
    } else {
        Some(String::from_str(path.substring_char(end, len)))
    }
}

/// The text of one decimal digit.
pub open spec fn digit_text(d: nat) -> Seq<char> {
    if d == 0 {
        "0"@
    } else if d == 1 {
        "1"@
    } else if d == 2 {
        "2"@
    } else if d == 3 {
        "3"@
    } else if d == 4 {
        "4"@
    } else if d == 5 {
        "5"@
    } else if d == 6 {
        "6"@
    } else if d == 7 {
        "7"@
    } else if d == 8 {
        "8"@
    } else {
        "9"@
    }
}

/// A number written in decimal, without leading zeros.
pub open spec fn decimal_text(n: nat) -> Seq<char>
    decreases n,
{
    if n < 10 {
        digit_text(n)
    } else {
        decimal_text(n / 10) + digit_text(n % 10)
    }
}

fn digit(d: usize) -> (out: &'static str)
    requires
        d < 10,
    ensures
        out@ == digit_text(d as nat),
{
    if d == 0 {
        "0"
    } else if d == 1 {
        "1"
    } else if d == 2 {
        "2"
    } else if d == 3 {
        "3"
    } else if d == 4 {
        "4"
    } else if d == 5 {
        "5"
    } else if d == 6 {
        "6"
    } else if d == 7 {
        "7"
    } else if d == 8 {
        "8"
    } else {
        "9"
    }
}

/// Writes a number in decimal.
pub fn decimal(n: usize) -> (out: String)
    ensures
        out@ == decimal_text(n as nat),
    decreases n,
{
    if n < 10 {
        String::from_str(digit(n))
    } else {
        let mut out = decimal(n / 10);
        out.append(digit(n % 10));
        out
    }
}

/// The text that `std` writes a string as for debugging: between double
/// quotes, with its special characters escaped.
pub uninterp spec fn debug_quoted(text: Seq<char>) -> Seq<char>;

/// Writes a string with `std`'s `Debug` formatter for `str`.
#[verifier::external_body]
pub(crate) fn quote_for_debug(text: &str) -> (out: String)
    ensures
        out@ == debug_quoted(text@),
{
    format!("{:?}", text)
}

/// The last component of a path: what follows its last `/`, or all of it.
pub open spec fn file_name_spec(path: Seq<char>) -> Seq<char> {
    match last_place(path, '/') {
        Some(i) => path.subrange(i + 1, path.len() as int),
        None => path,
    }
}

/// The extension of a file name: what follows its last `.`, unless that dot
/// opens the name or the name is `..`.
pub open spec fn extension_spec(path: Seq<char>) -> Option<Seq<char>> {
    let name = file_name_spec(path);
    match last_place(name, '.') {
        Some(i) => if i == 0 || name == seq!['.', '.'] {
            None
        } else {
            Some(name.subrange(i + 1, name.len() as int))
        },
        None => None,
    }
}

/// The place of the last `c` in a string.
fn find_last(s: &str, c: char) -> (out: Option<usize>)
    ensures
        match out {
            Some(i) => last_place(s@, c) == Some(i as int) && i < s@.len(),
            None => last_place(s@, c) is None,
        },
{
    let len = s.unicode_len();
    let mut end: usize = len;
    while end > 0 && s.get_char(end - 1) != c
        invariant
            end <= len,
            len == s@.len(),
            forall|k: int| end <= k < len ==> s@[k] != c,
        decreases end,
    {
        end -= 1;
    }
    proof {
        lemma_last_place_is(s@, c, end - 1);
    }
    if end == 0 {
        None
    } else {
        Some((end - 1) as usize)
    }
}

/// The extension of the file that a path names.
pub fn extension_of(path: &str) -> (out: Option<String>)
    ensures
        out.model() == extension_spec(path@),
{
    let len = path.unicode_len();
    let name = match find_last(path, '/') {
        Some(i) => path.substring_char(i + 1, len),
        None => path,
    };
    let name_len = name.unicode_len();
    match find_last(name, '.') {
        Some(i) => {
            let dots = name_len == 2 && name.get_char(0) == '.' && name.get_char(1) == '.';
            proof {
                if dots {
                    assert(name@ =~= seq!['.', '.']);
                }
            }
            if i == 0 || dots {
                None
            } else {
                Some(String::from_str(name.substring_char(i + 1, name_len)))
            }
        },
        None => None,
    }
}

} // verus!
