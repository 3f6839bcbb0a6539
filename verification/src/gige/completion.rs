//! What a streaming loop sets and signals once it has ended.

use std::sync::{Arc, Condvar, Mutex};
use vstd::prelude::*;

verus! {

/// A lock of `std::sync`.
#[verifier::external_type_specification]
#[verifier::external_body]
#[verifier::reject_recursive_types(T)]
pub struct ExMutex<T: ?Sized>(Mutex<T>);

/// A condition variable of `std::sync`.
#[verifier::external_type_specification]
#[verifier::external_body]
pub struct ExCondvar(Condvar);

/// What a streaming loop sets and signals once it has ended. The loop and its handle share it.
pub type Completion = Arc<(Mutex<bool>, Condvar)>;

/// `Mutex::new` makes a lock around a value. The lock is opaque, so nothing is stated of it.
pub assume_specification<T>[ Mutex::<T>::new ](t: T) -> (mutex: Mutex<T>);

/// `Condvar::new` makes a condition variable. It is opaque, so nothing is stated of it.
pub assume_specification[ Condvar::new ]() -> (condvar: Condvar);

/// Whether the completion is made of a lock around `false` and a condition variable, both new: no
/// loop has set it.
pub open spec fn is_unset(completion: Completion) -> bool {
    exists|flag: Mutex<bool>, condvar: Condvar| #[trigger]
        call_ensures(Mutex::<bool>::new, (false,), flag) && #[trigger] call_ensures(
            Condvar::new,
            (),
            condvar,
        ) && *completion == (flag, condvar)
}

/// A completion that no loop has set.
pub fn new_completion() -> (r: Completion)
    ensures
        is_unset(r),
        call_ensures(Mutex::<bool>::new, (false,), r.0),
        call_ensures(Condvar::new, (), r.1),
{
    Arc::new((Mutex::new(false), Condvar::new()))
}

/// A completion is unset if and only if its lock is one that was made around `false`, and its
/// condition variable one that was made for it.
pub proof fn law_unset_completion_holds_false(completion: Completion)
    ensures
        is_unset(completion) <==> call_ensures(Mutex::<bool>::new, (false,), completion.0)
            && call_ensures(Condvar::new, (), completion.1),
{
}

/// Calls `Arc::clone`, which makes another pointer to the same lock and condition variable.
#[verifier::external_body]
pub(crate) fn share(completion: &Completion) -> (r: Completion)
    ensures
        r == *completion,
{
    completion.clone()
}

} // verus!
