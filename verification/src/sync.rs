//! The lock that shared state sits behind.
use vstd::prelude::*;
pub use std::sync::Mutex;

verus! {

#[verifier::external_type_specification]
#[verifier::external_body]
#[verifier::reject_recursive_types(T)]
pub struct ExMutex<T: ?Sized>(std::sync::Mutex<T>);

#[verifier::external_type_specification]
#[verifier::external_body]
#[verifier::reject_recursive_types(T)]
pub struct ExSender<T>(std::sync::mpsc::Sender<T>);

/// Calls `Mutex::new`. What the lock holds is not visible to proofs.
#[verifier::external_body]
pub(crate) fn new_mutex<T>(value: T) -> (r: Mutex<T>) {
    Mutex::new(value)
}

} // verus!
