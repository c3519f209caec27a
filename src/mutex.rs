use vstd::prelude::*;

verus! {

#[verifier::external_type_specification]
#[verifier::external_body]
#[verifier::reject_recursive_types(T)]
pub struct ExStdMutex<T: ?Sized>(std::sync::Mutex<T>);

#[verifier::external_type_specification]
#[verifier::external_body]
#[verifier::reject_recursive_types(T)]
pub struct ExStdMutexGuard<'a, T: ?Sized + 'a>(std::sync::MutexGuard<'a, T>);

/// Relies on std::sync::Mutex::new to make an unlocked cell that owns `t`.
pub assume_specification<T>[ std::sync::Mutex::<T>::new ](t: T) -> std::sync::Mutex<T>;

/// Relies on std::sync::MutexGuard's Deref: shared access to the guarded value.
pub assume_specification<'a, 'b, T: ?Sized>[ <std::sync::MutexGuard<'a, T> as core::ops::Deref>::deref ](
    g: &'b std::sync::MutexGuard<'a, T>,
) -> &'b T;

/// Relies on std::sync::MutexGuard's DerefMut: exclusive access to the
/// guarded value.
pub assume_specification<'a, 'b, T: ?Sized>[ <std::sync::MutexGuard<'a, T> as core::ops::DerefMut>::deref_mut ](
    g: &'b mut std::sync::MutexGuard<'a, T>,
) -> &'b mut T;

/// Relies on std::hint::spin_loop, a processor hint with no effect on values.
pub assume_specification[ core::hint::spin_loop ]();

/// Relies on std::sync::Mutex::try_lock: one attempt that never waits. A
/// cell left poisoned by a panicking holder is taken over as it stands.
#[verifier::external_body]
fn try_acquire<T>(cell: &std::sync::Mutex<T>) -> Option<std::sync::MutexGuard<'_, T>> {
    match cell.try_lock() {
        Ok(g) => Some(g),
        Err(std::sync::TryLockError::Poisoned(e)) => Some(e.into_inner()),
        Err(std::sync::TryLockError::WouldBlock) => None,
    }
}

/// Relies on std::sync::Mutex::lock: waits until the cell is free. A cell
/// left poisoned by a panicking holder is taken over as it stands.
#[verifier::external_body]
fn acquire<T>(cell: &std::sync::Mutex<T>) -> std::sync::MutexGuard<'_, T> {
    match cell.lock() {
        Ok(g) => g,
        Err(e) => e.into_inner(),
    }
}

/// Failed attempts that `lock` spins through before it waits.
pub const SPIN_LIMIT: u32 = 1024;

/// A mutual-exclusion lock that callers take by polling.
///
/// `try_lock` makes one attempt and never waits; `lock` repeats that attempt,
/// with a processor hint between tries, up to `SPIN_LIMIT` times and only
/// then waits for the holder to let go. The value is reachable only through
/// a `MutexGuard`, and dropping the guard is the only way to unlock.
#[verifier::reject_recursive_types(T)]
pub struct Mutex<T> {
    value: std::sync::Mutex<T>,
}

/// Exclusive access to the value of a locked `Mutex`; dropping it unlocks.
#[verifier::reject_recursive_types(T)]
pub struct MutexGuard<'a, T> {
    guard: std::sync::MutexGuard<'a, T>,
}

impl<T> Mutex<T> {
    /// An unlocked mutex that owns `value`.
    pub fn new(value: T) -> (r: Self) {
        Mutex { value: std::sync::Mutex::new(value) }
    }

    /// One attempt to lock: `None` at once when another guard is alive.
    pub fn try_lock(&self) -> (r: Option<MutexGuard<'_, T>>) {
        match try_acquire(&self.value) {
            Some(guard) => Some(MutexGuard { guard }),
            None => None,
        }
    }

    /// Locks, polling with `try_lock` up to `spins` times before it waits.
    pub fn lock_spinning(&self, spins: u32) -> (r: MutexGuard<'_, T>) {
        let mut left: u32 = spins;
        while left > 0
            decreases left,
        {
            match self.try_lock() {
                Some(g) => {
                    return g;
                },
                None => {
                    core::hint::spin_loop();
                },
            }
            left = left - 1;
        }
        MutexGuard { guard: acquire(&self.value) }
    }

    /// Locks, polling up to `SPIN_LIMIT` times before it waits.
    pub fn lock(&self) -> (r: MutexGuard<'_, T>) {
        self.lock_spinning(SPIN_LIMIT)
    }
}

impl<'a, T> MutexGuard<'a, T> {
    /// Shared access to the guarded value.
    pub fn get(&self) -> &T {
        &*self.guard
    }

    /// Exclusive access to the guarded value.
    pub fn get_mut(&mut self) -> &mut T {
        &mut *self.guard
    }
}

impl<'a, T> core::ops::Deref for MutexGuard<'a, T> {
    type Target = T;

    fn deref(&self) -> &T {
        self.get()
    }
}

impl<'a, T> core::ops::DerefMut for MutexGuard<'a, T> {
    fn deref_mut(&mut self) -> &mut T {
        self.get_mut()
    }
}

} // verus!
