//! The names of the files of the client bundle, and the script that starts
//! the bundle in the browser.

use crate::text::{debug_quoted, quote_for_debug, to_chars};
use crate::vocab::text_is;
use vstd::prelude::*;
use vstd::string::*;

verus! {

/// Whether a character is white space, as Unicode defines it.
pub open spec fn is_space(c: char) -> bool {
    ('\u{9}' <= c && c <= '\u{D}') || c == ' ' || c == '\u{85}' || c == '\u{A0}' || c == '\u{1680}'
        || ('\u{2000}' <= c && c <= '\u{200A}') || c == '\u{2028}' || c == '\u{2029}' || c
        == '\u{202F}' || c == '\u{205F}' || c == '\u{3000}'
}

pub fn space(c: char) -> (out: bool)
    ensures
        out == is_space(c),
{
    ('\u{9}' <= c && c <= '\u{D}') || c == ' ' || c == '\u{85}' || c == '\u{A0}' || c == '\u{1680}'
        || ('\u{2000}' <= c && c <= '\u{200A}') || c == '\u{2028}' || c == '\u{2029}' || c
        == '\u{202F}' || c == '\u{205F}' || c == '\u{3000}'
}

/// `s[from..to]` is `s` without the white space at its two ends.
pub open spec fn is_trim_of(s: Seq<char>, from: int, to: int) -> bool {
    &&& 0 <= from <= to <= s.len()
    &&& forall|k: int| 0 <= k < from ==> is_space(#[trigger] s[k])
    &&& forall|k: int| to <= k < s.len() ==> is_space(#[trigger] s[k])
    &&& from < to ==> !is_space(s[from]) && !is_space(s[to - 1])
}

/// `s` without the white space at its two ends.
pub open spec fn trimmed(s: Seq<char>) -> Seq<char> {
    let (from, to) = choose|bounds: (int, int)| is_trim_of(s, bounds.0, bounds.1);
    s.subrange(from, to)
}

/// A text has one trim only; where it is all white space, the trim is empty.
pub proof fn lemma_trim_is(s: Seq<char>, from: int, to: int)
    requires
        is_trim_of(s, from, to),
    ensures
        trimmed(s) == s.subrange(from, to),
{
    let (a, b) = choose|bounds: (int, int)| is_trim_of(s, bounds.0, bounds.1);
    assert(is_trim_of(s, (from, to).0, (from, to).1));
    assert(is_trim_of(s, a, b));
    if from < to {
        if a >= b {
            // all of s is white space by (a, b), yet s[from] is not
            if from < a {
                assert(is_space(s[from]));
            } else {
                assert(is_space(s[from]));
            }
        } else {
            if a < from {
                assert(is_space(s[a]));
            }
            if from < a {
                assert(is_space(s[from]));
            }
            if b < to {
                assert(is_space(s[to - 1]));
            }
            if to < b {
                assert(is_space(s[b - 1]));
            }
        }
    } else {
        if a < b {
            if a < from {
                assert(is_space(s[a]));
            } else {
                assert(is_space(s[a]));
            }
        }
        assert(s.subrange(a, b) =~= s.subrange(from, to));
    }
}

/// The place of the first `c` in `s`, if there is one.
pub open spec fn first_place(s: Seq<char>, c: char) -> Option<int> {
    if exists|i: int| is_first(s, c, i) {
        Some(choose|i: int| is_first(s, c, i))
    } else {
        None
    }
}

pub open spec fn is_first(s: Seq<char>, c: char, i: int) -> bool {
    0 <= i < s.len() && s[i] == c && forall|k: int| 0 <= k < i ==> #[trigger] s[k] != c
}

pub proof fn lemma_first_place_is(s: Seq<char>, c: char, i: int)
    requires
        is_first(s, c, i),
    ensures
        first_place(s, c) == Some(i),
{
    let j = choose|j: int| is_first(s, c, j);
    if j < i {
        assert(s[j] != c);
    }
    if i < j {
        assert(s[i] != c);
    }
}

pub proof fn lemma_no_first_place(s: Seq<char>, c: char)
    requires
        forall|k: int| 0 <= k < s.len() ==> #[trigger] s[k] != c,
    ensures
        first_place(s, c) is None,
{
    if exists|i: int| is_first(s, c, i) {
        let i = choose|i: int| is_first(s, c, i);
        assert(s[i] != c);
    }
}

/// The two names as one line of the hash file leaves them. A line that is
/// empty when trimmed, or has no colon, changes nothing. Otherwise what
/// stands before the first colon says which name gets a dot and the
/// trimmed rest of the line at its end: `js` the first, `wasm` the second.
pub open spec fn apply_line(names: (Seq<char>, Seq<char>), line: Seq<char>) -> (
    Seq<char>,
    Seq<char>,
) {
    let text = trimmed(line);
    match first_place(text, ':') {
        Some(i) => {
            let file = text.subrange(0, i);
            let hash = trimmed(text.subrange(i + 1, text.len() as int));
            if file == "js"@ {
                (names.0 + "."@ + hash, names.1)
            } else if file == "wasm"@ {
                (names.0, names.1 + "."@ + hash)
            } else {
                names
            }
        },
        None => names,
    }
}

/// The two names as the lines of the hash file leave them, line by line.
pub open spec fn apply_lines(names: (Seq<char>, Seq<char>), text: Seq<char>) -> (
    Seq<char>,
    Seq<char>,
)
    decreases text.len(),
{
    match first_place(text, '\n') {
        Some(i) => if 0 <= i < text.len() {
            apply_lines(apply_line(names, text.subrange(0, i)), text.subrange(i + 1, text.len() as int))
        } else {
            names
        },
        None => apply_line(names, text),
    }
}

/// The bounds of the trim of `chars[start..end]`.
fn trim_range(chars: &Vec<char>, start: usize, end: usize) -> (out: (usize, usize))
    requires
        start <= end <= chars@.len(),
    ensures
        start <= out.0 <= out.1 <= end,
        trimmed(chars@.subrange(start as int, end as int)) == chars@.subrange(
            out.0 as int,
            out.1 as int,
        ),
{
    let mut from = start;
    while from < end && space(chars[from])
        invariant
            start <= from <= end <= chars@.len(),
            forall|k: int| start <= k < from ==> is_space(#[trigger] chars@[k]),
        decreases end - from,
    {
        from += 1;
    }
    let mut to = end;
    while to > from && space(chars[to - 1])
        invariant
            start <= from <= to <= end <= chars@.len(),
            forall|k: int| to <= k < end ==> is_space(#[trigger] chars@[k]),
        decreases to,
    {
        to -= 1;
    }
    proof {
        let part = chars@.subrange(start as int, end as int);
        assert forall|k: int| 0 <= k < from - start implies is_space(#[trigger] part[k]) by {
            assert(part[k] == chars@[k + start]);
        }
        assert forall|k: int| to - start <= k < part.len() implies is_space(#[trigger] part[k]) by {
            assert(part[k] == chars@[k + start]);
        }
        lemma_trim_is(part, from - start, to - start);
        assert(part.subrange(from - start, to - start) =~= chars@.subrange(from as int, to as int));
    }
    (from, to)
}

/// The place of the first `c` in `chars[start..end]`.
fn find_first(chars: &Vec<char>, start: usize, end: usize, c: char) -> (out: Option<usize>)
    requires
        start <= end <= chars@.len(),
    ensures
        match out {
            Some(i) => start <= i < end && first_place(
                chars@.subrange(start as int, end as int),
                c,
            ) == Some(i - start),
            None => first_place(chars@.subrange(start as int, end as int), c) is None,
        },
{
    let ghost part = chars@.subrange(start as int, end as int);
    let mut i = start;
    while i < end
        invariant
            start <= i <= end <= chars@.len(),
            part == chars@.subrange(start as int, end as int),
            forall|k: int| 0 <= k < i - start ==> #[trigger] part[k] != c,
        decreases end - i,
    {
        if chars[i] == c {
            proof {
                assert(part[i - start] == chars@[i as int]);
                lemma_first_place_is(part, c, i - start);
            }
            return Some(i);
        }
        assert(part[i - start] == chars@[i as int]);
        i += 1;
    }
    proof {
        lemma_no_first_place(part, c);
    }
    None
}

/// Takes one line of the hash file, `text[start..end]`, into the two names.
fn append_line_hash(
    js_file_name: &mut String,
    wasm_file_name: &mut String,
    text: &str,
    chars: &Vec<char>,
    start: usize,
    end: usize,
)
    requires
        chars@ == text@,
        start <= end <= chars@.len(),
    ensures
        (final(js_file_name)@, final(wasm_file_name)@) == apply_line(
            (old(js_file_name)@, old(wasm_file_name)@),
            text@.subrange(start as int, end as int),
        ),
{
    let (from, to) = trim_range(chars, start, end);
    match find_first(chars, from, to, ':') {
        Some(colon) => {
            let file = String::from_str(text.substring_char(from, colon));
            let (hash_from, hash_to) = trim_range(chars, colon + 1, to);
            let hash = text.substring_char(hash_from, hash_to);
            proof {
                let line = chars@.subrange(from as int, to as int);
                assert(line.subrange(0, colon - from) =~= chars@.subrange(
                    from as int,
                    colon as int,
                ));
                assert(line.subrange(colon - from + 1, line.len() as int) =~= chars@.subrange(
                    colon + 1,
                    to as int,
                ));
            }
            if text_is(&file, "js") {
                js_file_name.append(".");
                js_file_name.append(hash);
            } else if text_is(&file, "wasm") {
                wasm_file_name.append(".");
                wasm_file_name.append(hash);
            }
        },
        None => {},
    }
}

/// Adds to the two names the hashes that the hash file gives for them.
pub fn append_filename_hashes(js_file_name: &mut String, wasm_file_name: &mut String, hashes: &str)
    ensures
        (final(js_file_name)@, final(wasm_file_name)@) == apply_lines(
            (old(js_file_name)@, old(wasm_file_name)@),
            hashes@,
        ),
{
    let chars = to_chars(hashes);
    let len = chars.len();
    let mut start: usize = 0;
    proof {
        assert(hashes@.subrange(0, len as int) =~= hashes@);
    }
    loop
        invariant
            start <= len,
            len == chars@.len(),
            chars@ == hashes@,
            apply_lines((js_file_name@, wasm_file_name@), hashes@.subrange(start as int, len as int))
                == apply_lines((old(js_file_name)@, old(wasm_file_name)@), hashes@),
        decreases len - start,
    {
        let ghost rest = hashes@.subrange(start as int, len as int);
        match find_first(&chars, start, len, '\n') {
            Some(end) => {
                proof {
                    assert(rest.subrange(0, end - start) =~= hashes@.subrange(
                        start as int,
                        end as int,
                    ));
                    assert(rest.subrange(end - start + 1, rest.len() as int) =~= hashes@.subrange(
                        end + 1,
                        len as int,
                    ));
                }
                append_line_hash(js_file_name, wasm_file_name, hashes, &chars, start, end);
                start = end + 1;
            },
            None => {
                append_line_hash(js_file_name, wasm_file_name, hashes, &chars, start, len);
                return ;
            },
        }
    }
}

/// The names of the script and of the binary of the bundle. With hashing
/// on, the hash file gives their endings, and where it cannot be read the
/// plain names stay. With hashing off, the binary's name ends in `_bg`
/// unless the bundle was built under a name of its own.
pub open spec fn file_names_spec(
    output_name: Seq<char>,
    hash_files: bool,
    hashes: Option<Seq<char>>,
    named_at_build: bool,
) -> (Seq<char>, Seq<char>) {
    if hash_files {
        match hashes {
            Some(text) => apply_lines((output_name, output_name), text),
            None => (output_name, output_name),
        }
    } else if !named_at_build {
        (output_name, output_name + "_bg"@)
    } else {
        (output_name, output_name)
    }
}

pub fn file_names(
    output_name: &str,
    hash_files: bool,
    hashes: Option<&str>,
    named_at_build: bool,
) -> (out: (String, String))
    ensures
        (out.0@, out.1@) == file_names_spec(
            output_name@,
            hash_files,
            match hashes {
                Some(text) => Some(text@),
                None => None,
            },
            named_at_build,
        ),
{
    let mut js_file_name = String::from_str(output_name);
    let mut wasm_file_name = String::from_str(output_name);
    if hash_files {
        match hashes {
            Some(text) => {
                append_filename_hashes(&mut js_file_name, &mut wasm_file_name, text);
            },
            None => {},
        }
    } else if !named_at_build {
        wasm_file_name.append("_bg");
    }
    (js_file_name, wasm_file_name)
}

/// The address of a file of the bundle.
pub open spec fn bundle_href_spec(
    root: Seq<char>,
    pkg_path: Seq<char>,
    file_name: Seq<char>,
    extension: Seq<char>,
) -> Seq<char> {
    root + "/"@ + pkg_path + "/"@ + file_name + "."@ + extension
}

pub fn bundle_href(root: &str, pkg_path: &str, file_name: &str, extension: &str) -> (out: String)
    ensures
        out@ == bundle_href_spec(root@, pkg_path@, file_name@, extension@),
{
    let mut out = String::from_str(root);
    out.append("/");
    out.append(pkg_path);
    out.append("/");
    out.append(file_name);
    out.append(".");
    out.append(extension);
    out
}

/// The script that starts the bundle: the starter called with the four
/// names as quoted strings, then the script of the router.
pub open spec fn bootstrap_script_spec(
    script: Seq<char>,
    root: Seq<char>,
    pkg_path: Seq<char>,
    js_file_name: Seq<char>,
    wasm_file_name: Seq<char>,
    islands_router: Seq<char>,
) -> Seq<char> {
    script + "("@ + debug_quoted(root) + ", "@ + debug_quoted(pkg_path) + ", "@ + debug_quoted(
        js_file_name,
    ) + ", "@ + debug_quoted(wasm_file_name) + ");"@ + islands_router
}

pub fn bootstrap_script(
    script: &str,
    root: &str,
    pkg_path: &str,
    js_file_name: &str,
    wasm_file_name: &str,
    islands_router: &str,
) -> (out: String)
    ensures
        out@ == bootstrap_script_spec(
            script@,
            root@,
            pkg_path@,
            js_file_name@,
            wasm_file_name@,
            islands_router@,
        ),
{
    let mut out = String::from_str(script);
    out.append("(");
    let quoted = quote_for_debug(root);
    out.append(quoted.as_str());
    out.append(", ");
    let quoted = quote_for_debug(pkg_path);
    out.append(quoted.as_str());
    out.append(", ");
    let quoted = quote_for_debug(js_file_name);
    out.append(quoted.as_str());
    out.append(", ");
    let quoted = quote_for_debug(wasm_file_name);
    out.append(quoted.as_str());
    out.append(");");
    out.append(islands_router);
    out
}

} // verus!
