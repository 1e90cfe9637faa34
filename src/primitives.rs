use vstd::prelude::*;

verus! {

/// simple_mutex's lock, carried through opaque.
#[verifier::external_type_specification]
#[verifier::external_body]
#[verifier::reject_recursive_types(T)]
pub struct ExRawMutex<T>(simple_mutex::Mutex<T>);

/// simple_mutex's proof that its lock is held; dropping it unlocks.
#[verifier::external_type_specification]
#[verifier::external_body]
#[verifier::reject_recursive_types(T)]
pub struct ExRawGuard<'a, T>(simple_mutex::MutexGuard<'a, T>);

/// The sending end of a oneshot channel.
#[verifier::external_type_specification]
#[verifier::external_body]
#[verifier::reject_recursive_types(T)]
pub struct ExSender<T>(oneshot::Sender<T>);

/// The receiving end of a oneshot channel.
#[verifier::external_type_specification]
#[verifier::external_body]
#[verifier::reject_recursive_types(T)]
pub struct ExReceiver<T>(oneshot::Receiver<T>);

/// What awaiting a oneshot receiver yields when its sender was dropped.
#[verifier::external_type_specification]
#[verifier::external_body]
pub struct ExRecvError(oneshot::RecvError);

/// Relies on simple_mutex::Mutex::new: a new, unlocked lock around `data`.
pub assume_specification<T>[ simple_mutex::Mutex::<T>::new ](data: T) -> simple_mutex::Mutex<T>;

/// Relies on simple_mutex::Mutex::try_lock: `Some` when the lock was free and is now held.
pub assume_specification<T>[ simple_mutex::Mutex::<T>::try_lock ](m: &simple_mutex::Mutex<T>) -> Option<simple_mutex::MutexGuard<'_, T>>;

/// Relies on oneshot::channel: a fresh, connected sender and receiver.
pub assume_specification<T>[ oneshot::channel::<T> ]() -> (oneshot::Sender<T>, oneshot::Receiver<T>);

/// Relies on simple_mutex::Mutex::lock: it blocks until the lock is held and does
/// not panic.
#[verifier::external_body]
pub(crate) fn lock_raw<T>(m: &simple_mutex::Mutex<T>) -> simple_mutex::MutexGuard<'_, T> {
    m.lock()
}

/// Relies on oneshot::Sender::send: it fails only when the receiver has been dropped,
/// and does not panic. Which of the two happens is up to the receiving task.
#[verifier::external_body]
pub(crate) fn signal(s: oneshot::Sender<()>) -> (delivered: bool) {
    s.send(()).is_ok()
}

/// Relies on simple_mutex::MutexGuard's `DerefMut`: the value that the held lock protects.
#[verifier::external_body]
pub(crate) fn guarded_mut<'b, 'a, T>(g: &'b mut simple_mutex::MutexGuard<'a, T>) -> &'b mut T {
    &mut **g
}

/// Relies on simple_mutex::MutexGuard's `Deref`: the value that the held lock protects.
#[verifier::external_body]
pub(crate) fn guarded<'b, 'a, T>(g: &'b simple_mutex::MutexGuard<'a, T>) -> &'b T {
    &**g
}

} // verus!
