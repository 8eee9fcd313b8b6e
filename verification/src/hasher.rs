use std::collections::hash_map::RandomState;
use vstd::prelude::*;

verus! {

/// `RandomState::default` of std: a freshly seeded hasher builder.
///
/// Nothing is claimed: the seed is random.
#[verifier::external_body]
pub(crate) fn default_random_state() -> RandomState {
    RandomState::default()
}

} // verus!
