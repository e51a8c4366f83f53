//! Bounded strings and vectors from the `heapless` crate.
//!
//! The resolution engine assembles its strings in ordinary `String`s and only
//! converts finished values into the fixed-capacity types that the public
//! interface exposes.  Everything the verifier believes about the heapless
//! types is stated in this module and nowhere else.

use vstd::prelude::*;

verus! {

use vstd::utf8::{encode_utf8, is_ascii_chars, is_ascii_chars_encode_utf8};

#[verifier::external_type_specification]
#[verifier::external_body]
pub struct ExHeaplessString<const N: usize>(heapless::String<N>);

#[verifier::external_type_specification]
#[verifier::external_body]
#[verifier::reject_recursive_types(T)]
pub struct ExHeaplessVec<T, const N: usize>(heapless::Vec<T, N>);

/// The characters a 12-byte bounded string holds.
pub uninterp spec fn str12_chars(s: heapless::String<12>) -> Seq<char>;

/// The characters a 32-byte bounded string holds.
pub uninterp spec fn str32_chars(s: heapless::String<32>) -> Seq<char>;

/// The characters a 64-byte bounded string holds.
pub uninterp spec fn str64_chars(s: heapless::String<64>) -> Seq<char>;

/// The feature names a bounded feature vector holds.
pub uninterp spec fn feat_names(v: heapless::Vec<&'static str, 64>) -> Seq<Seq<char>>;

/// The given characters when their encoding fits in `cap` bytes, and nothing
/// otherwise: what a fixed-capacity string keeps of an all-or-nothing copy.
pub open spec fn fitted(s: Seq<char>, cap: nat) -> Seq<char> {
    if encode_utf8(s).len() <= cap {
        s
    } else {
        Seq::empty()
    }
}

/// Relies on `heapless::String::try_from` (`push_str` underneath): the whole
/// string is copied when its encoding fits the capacity, and the result stays
/// empty otherwise.
#[verifier::external_body]
pub fn hstr12_from_str(s: &str) -> (r: heapless::String<12>)
    ensures
        str12_chars(r) == fitted(s@, 12),
{
    match heapless::String::try_from(s) {
        Ok(v) => v,
        Err(_) => heapless::String::new(),
    }
}

/// Relies on `heapless::String::try_from` (`push_str` underneath): the whole
/// string is copied when its encoding fits the capacity, and the result stays
/// empty otherwise.
#[verifier::external_body]
pub fn hstr32_from_str(s: &str) -> (r: heapless::String<32>)
    ensures
        str32_chars(r) == fitted(s@, 32),
{
    match heapless::String::try_from(s) {
        Ok(v) => v,
        Err(_) => heapless::String::new(),
    }
}

/// Relies on `heapless::String::try_from` (`push_str` underneath): the whole
/// string is copied when its encoding fits the capacity, and the result stays
/// empty otherwise.
#[verifier::external_body]
pub fn hstr64_from_str(s: &str) -> (r: heapless::String<64>)
    ensures
        str64_chars(r) == fitted(s@, 64),
{
    match heapless::String::try_from(s) {
        Ok(v) => v,
        Err(_) => heapless::String::new(),
    }
}

/// Relies on `heapless::String::as_str`: a view of the stored bytes as a
/// string slice.
#[verifier::external_body]
pub fn hstr12_as_str(s: &heapless::String<12>) -> (r: &str)
    ensures
        r@ == str12_chars(*s),
{
    s.as_str()
}

/// Relies on `heapless::String::as_str`: a view of the stored bytes as a
/// string slice.
#[verifier::external_body]
pub fn hstr32_as_str(s: &heapless::String<32>) -> (r: &str)
    ensures
        r@ == str32_chars(*s),
{
    s.as_str()
}

/// Relies on `heapless::String::as_str`: a view of the stored bytes as a
/// string slice.
#[verifier::external_body]
pub fn hstr64_as_str(s: &heapless::String<64>) -> (r: &str)
    ensures
        r@ == str64_chars(*s),
{
    s.as_str()
}

/// The views of a sequence of string slices.
pub open spec fn str_views(s: Seq<&str>) -> Seq<Seq<char>> {
    s.map_values(|x: &str| x@)
}

/// Relies on `heapless::Vec::from_slice` (`extend_from_slice` underneath):
/// the whole slice is copied when it fits the capacity.
#[verifier::external_body]
pub fn feat_vec_from(v: &Vec<&'static str>) -> (r: heapless::Vec<&'static str, 64>)
    requires
        v@.len() <= 64,
    ensures
        feat_names(r) == str_views(v@),
{
    match heapless::Vec::from_slice(v.as_slice()) {
        Ok(r) => r,
        Err(_) => heapless::Vec::new(),
    }
}

/// Relies on `Clone` for `heapless::String`, which copies the stored bytes;
/// nothing is promised of the copy.
pub assume_specification<const N: usize>[ <heapless::String<N> as Clone>::clone ](
    s: &heapless::String<N>,
) -> heapless::String<N>;

/// A sequence of ASCII characters no longer than the capacity always fits:
/// its encoding takes one byte per character.
pub proof fn lemma_fitted_ascii(s: Seq<char>, cap: nat)
    requires
        is_ascii_chars(s),
        s.len() <= cap,
    ensures
        fitted(s, cap) == s,
{
    is_ascii_chars_encode_utf8(s);
}

} // verus!
