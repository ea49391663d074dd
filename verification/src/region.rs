//! Choice of the region in which a fleet is provisioned.

use crate::text::{is_provided, provided, text_of};
use vstd::prelude::*;

verus! {

/// The region used when neither the caller nor the environment names one.
pub open spec fn fallback_region() -> Seq<char> {
    "us-west-2"@
}

/// The effective region: the explicit one when the caller named one, else
/// what the environment offers, else the fallback.
pub open spec fn effective_region(
    explicit: Option<Seq<char>>,
    ambient: Option<Seq<char>>,
) -> Seq<char> {
    if provided(explicit) {
        explicit->0
    } else if ambient is Some {
        ambient->0
    } else {
        fallback_region()
    }
}

/// The fallback names a region: it is not empty.
pub proof fn lemma_fallback_is_a_name()
    ensures
        fallback_region().len() == 9,
        provided(Some(fallback_region())),
{
    reveal_strlit("us-west-2");
}

/// The selection always yields a region, by priority: what the caller named
/// if anything, else what the environment offers, else the fallback. Where
/// the environment offers no empty name, the result is not empty.
pub proof fn lemma_selection_by_priority(explicit: Option<Seq<char>>, ambient: Option<Seq<char>>)
    ensures
        provided(explicit) ==> effective_region(explicit, ambient) == explicit->0,
        !provided(explicit) && ambient is Some ==> effective_region(explicit, ambient)
            == ambient->0,
        !provided(explicit) && ambient is None ==> effective_region(explicit, ambient)
            == fallback_region(),
        (ambient is Some ==> provided(ambient)) ==> effective_region(explicit, ambient).len() > 0,
{
    lemma_fallback_is_a_name();
}

/// Returns the fallback region.
pub fn default_region() -> (r: String)
    ensures
        r@ == fallback_region(),
{
    "us-west-2".to_owned()
}

/// Tells whether the caller named a region, in which case the environment
/// need not be consulted.
pub fn has_explicit_region(explicit: &Option<String>) -> (b: bool)
    ensures
        b == provided(text_of(*explicit)),
{
    is_provided(explicit)
}

/// Picks the effective region from the caller's request and the
/// environment's default.
pub fn select_region(explicit: Option<String>, ambient: Option<String>) -> (r: String)
    ensures
        r@ == effective_region(text_of(explicit), text_of(ambient)),
{
    if has_explicit_region(&explicit) {
        explicit.unwrap()
    } else {
        match ambient {
            Some(a) => a,
            None => default_region(),
        }
    }
}

} // verus!
