use vstd::prelude::*;
use crate::text::{chars_of, string_of, extend_chars};

verus! {

/// What `str::to_uppercase` gives for a string: the Unicode uppercase mapping,
/// which may change the length of the string.
pub uninterp spec fn unicode_uppercase(s: Seq<char>) -> Seq<char>;

/// What `str::to_lowercase` gives for a string: the Unicode lowercase mapping.
pub uninterp spec fn unicode_lowercase(s: Seq<char>) -> Seq<char>;

pub open spec fn is_ascii_text(s: Seq<char>) -> bool {
    forall|k: int| 0 <= k < s.len() ==> (#[trigger] s[k] as u32) < 0x80
}

pub open spec fn ascii_upper(c: char) -> char {
    if 'a' <= c <= 'z' {
        ((c as u32) - 32) as char
    } else {
        c
    }
}

pub open spec fn ascii_lower(c: char) -> char {
    if 'A' <= c <= 'Z' {
        ((c as u32) + 32) as char
    } else {
        c
    }
}

/// `str::to_uppercase`. The result is named, not stated: the Unicode case
/// tables are not written out here. On ASCII text it is the ASCII uppercase
/// of each character, as the standard library documents.
#[verifier::external_body]
pub(crate) fn to_uppercase(s: &str) -> (r: String)
    ensures
        r@ == unicode_uppercase(s@),
        is_ascii_text(s@) ==> r@ == s@.map_values(|c: char| ascii_upper(c)),
{
    s.to_uppercase()
}

/// `str::to_lowercase`. The result is named, not stated; on ASCII text it is
/// the ASCII lowercase of each character.
#[verifier::external_body]
pub(crate) fn to_lowercase(s: &str) -> (r: String)
    ensures
        r@ == unicode_lowercase(s@),
        is_ascii_text(s@) ==> r@ == s@.map_values(|c: char| ascii_lower(c)),
{
    s.to_lowercase()
}

/// `s` with every `from` replaced by the text `to`.
pub open spec fn replace_char(s: Seq<char>, from: char, to: Seq<char>) -> Seq<char>
    decreases s.len(),
{
    if s.len() == 0 {
        Seq::empty()
    } else {
        replace_char(s.drop_last(), from, to) + if s.last() == from {
            to
        } else {
            seq![s.last()]
        }
    }
}

pub fn replace_chars(s: &String, from: char, to: &str) -> (r: String)
    ensures
        r@ == replace_char(s@, from, to@),
{
    let cs = chars_of(s.as_str());
    let tos = chars_of(to);
    let mut out: Vec<char> = Vec::new();
    let mut i: usize = 0;
    while i < cs.len()
        invariant
            i <= cs.len(),
            cs@ == s@,
            tos@ == to@,
            out@ == replace_char(s@.take(i as int), from, to@),
        decreases cs.len() - i,
    {
        let ghost before = s@.take(i as int);
        let ghost after = s@.take(i + 1);
        assert(after.drop_last() =~= before);
        if cs[i] == from {
            extend_chars(&mut out, &tos);
        } else {
            out.push(cs[i]);
            assert(out@ =~= replace_char(before, from, to@) + seq![cs@[i as int]]);
        }
        i += 1;
    }
    assert(s@.take(cs.len() as int) =~= s@);
    string_of(&out)
}

pub open spec fn spec_struct_identifier(input: Seq<char>) -> Seq<char> {
    replace_char(
        replace_char(replace_char(unicode_uppercase(input), '-', seq!['_']), '.', seq!['_']),
        '/',
        seq!['_', 'O', 'F', '_'],
    )
}

/// What `spec_struct_identifier` is on ASCII text, where upper-casing maps
/// each letter on its own.
pub open spec fn ascii_struct_identifier(input: Seq<char>) -> Seq<char> {
    replace_char(
        replace_char(
            replace_char(input.map_values(|c: char| ascii_upper(c)), '-', seq!['_']),
            '.',
            seq!['_'],
        ),
        '/',
        seq!['_', 'O', 'F', '_'],
    )
}

pub open spec fn spec_sanitize_class_prefix(input: Seq<char>) -> Seq<char> {
    replace_char(replace_char(input, '#', seq!['H', 'B']), '%', seq!['P', 'P'])
}

pub open spec fn spec_raw_identifier(input: Seq<char>) -> Seq<char> {
    spec_struct_identifier(
        spec_sanitize_class_prefix(
            replace_char(replace_char(input, '/', seq!['_']), '.', seq!['_']),
        ),
    ) + seq!['_', 'R', 'A', 'W']
}

/// `padding-1/2` -> `PADDING_1_OF_2`: the name of the static that holds a
/// utility class.
pub fn class_name_to_struct_identifier(input: &String) -> (r: String)
    ensures
        r@ == spec_struct_identifier(input@),
        is_ascii_text(input@) ==> r@ == ascii_struct_identifier(input@),
{
    let up = to_uppercase(input.as_str());
    let a = replace_chars(&up, '-', "_");
    let b = replace_chars(&a, '.', "_");
    proof {
        reveal_strlit("_");
        reveal_strlit("_OF_");
        assert("_"@ =~= seq!['_']);
        assert("_OF_"@ =~= seq!['_', 'O', 'F', '_']);
    }
    replace_chars(&b, '/', "_OF_")
}

/// `#` -> `HB` and `%` -> `PP`, so the name can be part of a class prefix.
pub fn sanitize_class_prefix(input: &String) -> (r: String)
    ensures
        r@ == spec_sanitize_class_prefix(input@),
{
    let a = replace_chars(input, '#', "HB");
    proof {
        reveal_strlit("HB");
        reveal_strlit("PP");
        assert("HB"@ =~= seq!['H', 'B']);
        assert("PP"@ =~= seq!['P', 'P']);
    }
    replace_chars(&a, '%', "PP")
}

/// `padding-1/2` -> `PADDING_1_2_RAW`: the name of the static that holds a
/// utility's raw declarations.
pub fn class_name_to_raw_identifier(input: &String) -> (r: String)
    ensures
        r@ == spec_raw_identifier(input@),
{
    proof {
        reveal_strlit("_");
        assert("_"@ =~= seq!['_']);
    }
    let a = replace_chars(input, '/', "_");
    let b = replace_chars(&a, '.', "_");
    let c = sanitize_class_prefix(&b);
    let d = class_name_to_struct_identifier(&c);
    let mut v = chars_of(d.as_str());
    v.push('_');
    v.push('R');
    v.push('A');
    v.push('W');
    string_of(&v)
}

} // verus!
