//! Turning arbitrary session names into container labels.
use vstd::prelude::*;

use crate::text::push_char;

verus! {

/// An ASCII letter or digit.
pub open spec fn is_alnum(c: char) -> bool {
    ('a' <= c && c <= 'z') || ('A' <= c && c <= 'Z') || ('0' <= c && c <= '9')
}

/// A character allowed in a container label.
pub open spec fn is_label_char(c: char) -> bool {
    is_alnum(c) || c == '_' || c == '.' || c == '-'
}

/// The character that stands for `c` in a label.
pub open spec fn label_char(c: char) -> char {
    if is_label_char(c) {
        c
    } else {
        '-'
    }
}

/// `s` with every character outside the label alphabet replaced by `-`.
pub open spec fn replace_invalid(s: Seq<char>) -> Seq<char> {
    s.map_values(|c: char| label_char(c))
}

/// The label derived from a raw session name: invalid characters become `-`,
/// and an `s` is put in front when the result would not start with a letter
/// or digit.
pub open spec fn sanitized(raw: Seq<char>) -> Seq<char> {
    let m = replace_invalid(raw);
    if m.len() > 0 && is_alnum(m[0]) {
        m
    } else {
        seq!['s'] + m
    }
}

/// A well-formed label: non-empty, starting with an ASCII letter or digit,
/// and made of label characters only.
pub open spec fn is_valid_label(s: Seq<char>) -> bool {
    &&& s.len() > 0
    &&& is_alnum(s[0])
    &&& forall|i: int| 0 <= i < s.len() ==> is_label_char(#[trigger] s[i])
}

fn is_alnum_exec(c: char) -> (r: bool)
    ensures
        r == is_alnum(c),
{
    ('a' <= c && c <= 'z') || ('A' <= c && c <= 'Z') || ('0' <= c && c <= '9')
}

fn is_label_char_exec(c: char) -> (r: bool)
    ensures
        r == is_label_char(c),
{
    is_alnum_exec(c) || c == '_' || c == '.' || c == '-'
}

/// Derives the container label of a session from its raw name.
pub fn sanitize_podman_name(branch: &str) -> (r: String)
    ensures
        r@ == sanitized(branch@),
{
    let n = branch.unicode_len();
    let mut name = String::new();
    let mut i: usize = 0;
    while i < n
        invariant
            n == branch@.len(),
            i <= n,
            name@ == replace_invalid(branch@.subrange(0, i as int)),
        decreases n - i,
    {
        let c = branch.get_char(i);
        let d = if is_label_char_exec(c) {
            c
        } else {
            '-'
        };
        push_char(&mut name, d);
        i = i + 1;
        assert(replace_invalid(branch@.subrange(0, i as int)) =~= replace_invalid(
            branch@.subrange(0, i - 1),
        ).push(label_char(branch@[i - 1])));
    }
    assert(branch@.subrange(0, n as int) =~= branch@);
    let starts_well = n > 0 && is_alnum_exec(name.as_str().get_char(0));
    if starts_well {
        name
    } else {
        let mut prefixed = String::new();
        push_char(&mut prefixed, 's');
        prefixed.append(name.as_str());
        assert(prefixed@ =~= seq!['s'] + name@);
        prefixed
    }
}

/// Checks that `name` is a well-formed container label.
pub fn valid_podman_name(name: &str) -> (r: bool)
    ensures
        r == is_valid_label(name@),
{
    let n = name.unicode_len();
    if n == 0 || !is_alnum_exec(name.get_char(0)) {
        return false;
    }
    let mut i: usize = 1;
    while i < n
        invariant
            n == name@.len(),
            1 <= i <= n,
            is_alnum(name@[0]),
            forall|j: int| 0 <= j < i ==> is_label_char(#[trigger] name@[j]),
        decreases n - i,
    {
        if !is_label_char_exec(name.get_char(i)) {
            return false;
        }
        i = i + 1;
    }
    true
}

/// Every raw name, including one that holds characters outside the label
/// alphabet, is turned into a well-formed label.
pub proof fn lemma_sanitized_is_valid(raw: Seq<char>)
    ensures
        is_valid_label(sanitized(raw)),
{
    let m = replace_invalid(raw);
    assert forall|i: int| 0 <= i < m.len() implies is_label_char(#[trigger] m[i]) by {}
    if !(m.len() > 0 && is_alnum(m[0])) {
        let p = seq!['s'] + m;
        assert forall|i: int| 0 <= i < p.len() implies is_label_char(#[trigger] p[i]) by {
            if i > 0 {
                assert(p[i] == m[i - 1]);
            }
        }
    }
}

/// A raw name that already is a well-formed label is its own label.
pub proof fn lemma_sanitize_keeps_valid(raw: Seq<char>)
    requires
        is_valid_label(raw),
    ensures
        sanitized(raw) == raw,
{
    assert(replace_invalid(raw) =~= raw);
}

/// The empty string and a string that does not start with an ASCII letter or
/// digit are not well-formed labels.
pub proof fn lemma_bad_start_is_invalid(s: Seq<char>)
    requires
        s.len() == 0 || !is_alnum(s[0]),
    ensures
        !is_valid_label(s),
{
}

} // verus!
