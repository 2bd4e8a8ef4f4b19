//! Small helpers on string slices.

use vstd::prelude::*;
use vstd::string::StringExecFns;
use vstd::string::StringSliceAdditionalSpecFns;
use vstd::string::StrSliceExecFns;

verus! {

/// Whether two string slices hold the same characters.
///
/// Compares the UTF-8 encodings byte by byte; two character sequences with
/// the same encoding are the same sequence.
pub fn str_equals(a: &str, b: &str) -> (same: bool)
    ensures
        same == (a@ == b@),
{
    let x = a.as_bytes();
    let y = b.as_bytes();
    proof {
        vstd::utf8::encode_utf8_decode_utf8(a@);
        vstd::utf8::encode_utf8_decode_utf8(b@);
    }
    if x.len() != y.len() {
        return false;
    }
    let mut i: usize = 0;
    while i < x.len()
        invariant
            i <= x.len(),
            x.len() == y.len(),
            x@ == a.spec_bytes(),
            y@ == b.spec_bytes(),
            forall|j: int| 0 <= j < i ==> x@[j] == y@[j],
        decreases x.len() - i,
    {
        if x[i] != y[i] {
            return false;
        }
        i += 1;
    }
    assert(x@ =~= y@);
    true
}

/// Whether a colon followed by a space starts at position `i` of `s`.
pub open spec fn separator_at(s: Seq<char>, i: int) -> bool {
    0 <= i && i + 1 < s.len() && s[i] == ':' && s[i + 1] == ' '
}

/// Whether `s` holds a colon followed by a space anywhere.
pub open spec fn has_separator(s: Seq<char>) -> bool {
    exists|i: int| separator_at(s, i)
}

/// The position of the first colon that a space follows.
pub open spec fn first_separator(s: Seq<char>) -> int {
    choose|i: int| separator_at(s, i) && forall|j: int| 0 <= j < i ==> !separator_at(s, j)
}

/// The text of a chat line without its leading `sender: ` token: what
/// follows the first colon-space, or the whole line where there is none.
pub open spec fn without_sender_prefix(s: Seq<char>) -> Seq<char> {
    if has_separator(s) {
        s.subrange(first_separator(s) + 2, s.len() as int)
    } else {
        s
    }
}

/// Strips the leading `sender: ` token from a chat line.
pub fn strip_sender_prefix(line: &str) -> (body: String)
    ensures
        body@ == without_sender_prefix(line@),
{
    let length = line.unicode_len();
    let mut position: usize = 0;
    let mut after_colon = false;
    let mut found: Option<usize> = None;
    for c in it: line.chars()
        invariant
            it.seq() == line@,
            length == line@.len(),
            position == it.index(),
            after_colon == (position > 0 && line@[position - 1] == ':'),
            match found {
                Some(k) => k + 1 < position && separator_at(line@, k as int) && forall|j: int|
                    0 <= j < k ==> !separator_at(line@, j),
                None => forall|j: int| 0 <= j && j + 1 < position ==> !separator_at(line@, j),
            },
    {
        if found.is_none() && after_colon && c == ' ' {
            found = Some(position - 1);
        }
        after_colon = c == ':';
        position += 1;
    }
    match found {
        Some(k) => {
            assert(has_separator(line@));
            let rest = line.substring_char(k + 2, length);
            String::from_str(rest)
        },
        None => {
            assert(!has_separator(line@));
            String::from_str(line)
        },
    }
}

} // verus!
