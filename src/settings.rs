use vstd::prelude::*;

verus! {

/// `std::sync::RwLock`, which vstd does not describe; carried here only as an opaque value.
#[verifier::external_type_specification]
#[verifier::external_body]
#[verifier::reject_recursive_types(T)]
pub struct ExRwLock<T: ?Sized>(std::sync::RwLock<T>);

/// Serialises writes of the front end's settings files: a writer holds the lock for the
/// whole write, so that two saves never interleave.
pub struct FrontendSettingsState {
    pub state: std::sync::RwLock<bool>,
}

} // verus!
