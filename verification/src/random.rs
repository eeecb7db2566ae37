//! Random draws.

use vstd::prelude::*;
use rand::distr::{Alphanumeric, SampleString};
use rand::seq::IndexedRandom;
use rand::Rng;

verus! {

/// Whether a character is an ASCII letter or digit.
pub open spec fn is_ascii_alphanumeric(c: char) -> bool {
    ('a' <= c && c <= 'z') || ('A' <= c && c <= 'Z') || ('0' <= c && c <= '9')
}

/// Draws an index below `bound`.
///
/// Trusted: stands for `Rng::random_range` of `rand`, called on the thread's
/// generator with the range from zero up to `bound`, which it refuses when
/// empty. Which index comes back is left open.
#[verifier::external_body]
pub(crate) fn random_index(bound: usize) -> (index: usize)
    requires
        bound > 0,
    ensures
        index < bound,
{
    rand::rng().random_range(0..bound)
}

/// Draws one of `items`, or nothing where there is none.
///
/// Trusted: stands for `IndexedRandom::choose` of `rand`, called on the
/// thread's generator. Which item comes back is left open.
#[verifier::external_body]
pub(crate) fn choose_one<T>(items: &Vec<T>) -> (chosen: Option<&T>)
    ensures
        match chosen {
            Some(item) => exists|i: int| 0 <= i < items@.len() && items@[i] == *item,
            None => items@.len() == 0,
        },
{
    items.choose(&mut rand::rng())
}

/// Draws a text of `length` ASCII letters and digits.
///
/// Trusted: stands for `SampleString::sample_string` of `rand`, called on
/// `Alphanumeric` with the thread's generator. Which characters come back is
/// left open.
#[verifier::external_body]
pub(crate) fn alphanumeric(length: usize) -> (text: String)
    ensures
        text@.len() == length,
        forall|i: int| 0 <= i < text@.len() ==> is_ascii_alphanumeric(#[trigger] text@[i]),
{
    Alphanumeric.sample_string(&mut rand::rng(), length)
}

} // verus!
