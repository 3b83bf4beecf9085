//! A value that is set once.

use std::sync::OnceLock;
use vstd::prelude::*;

verus! {

/// Declares [`OnceLock`]. What one holds can change behind a shared reference, so a value of it
/// tells nothing of its contents.
#[verifier::external_type_specification]
#[verifier::external_body]
#[verifier::reject_recursive_types(T)]
pub struct ExOnceLock<T>(OnceLock<T>);

/// Takes the value out of a slot that holds one.
fn taken<T>(slot: &mut Option<T>) -> (r: T)
    requires
        *old(slot) is Some,
    ensures
        *final(slot) is None,
        Some(r) == *old(slot),
{
    slot.take().unwrap()
}

/// Calls [`OnceLock::get_or_init`] with a function that takes the value out of `slot`: either
/// the function was not called and the value is still there, or it was called and what the lock
/// holds is that value. Which of the two it is, and what a lock holds that was set before, is
/// left unsaid: it depends on what else uses the lock.
#[verifier::external_body]
fn get_or_init<'a, T>(lock: &'a OnceLock<T>, slot: &mut Option<T>) -> (r: &'a T)
    requires
        *old(slot) is Some,
    ensures
        *final(slot) is None ==> Some(*r) == *old(slot),
        *final(slot) is Some ==> *final(slot) == *old(slot),
{
    lock.get_or_init(|| taken(slot))
}

/// What an attempt to set a value came to, given what the lock holds after it and what is left
/// in the slot that the value was to be taken from: an empty slot means that it was set.
pub fn insertion<'a, T>(held: &'a T, left: Option<T>) -> (r: Result<&'a T, (&'a T, T)>)
    ensures
        r == (match left {
            None => Ok::<&'a T, (&'a T, T)>(held),
            Some(value) => Err((held, value)),
        }),
{
    match left {
        None => Ok(held),
        Some(value) => Err((held, value)),
    }
}

/// Sets the value of `this`, unless it is set already. Then the value that was there is handed
/// out, and `value` is given back.
pub fn once_lock_try_insert_polyfill<T>(this: &OnceLock<T>, value: T) -> (r: Result<&T, (&T, T)>)
    ensures
        r matches Ok(inserted) ==> *inserted == value,
        r matches Err(existing) ==> existing.1 == value,
{
    let mut slot = Some(value);
    let held = get_or_init(this, &mut slot);
    insertion(held, slot)
}

} // verus!
