use parking_lot::Mutex;
use postage::watch;
use vstd::prelude::*;

verus! {

#[verifier::external_type_specification]
#[verifier::external_body]
#[verifier::reject_recursive_types(T)]
pub struct ExWatchSender<T>(watch::Sender<T>);

#[verifier::external_type_specification]
#[verifier::external_body]
#[verifier::reject_recursive_types(T)]
pub struct ExWatchReceiver<T>(watch::Receiver<T>);

#[verifier::external_type_specification]
#[verifier::external_body]
pub struct ExRawMutex(parking_lot::RawMutex);

#[verifier::external_type_specification]
#[verifier::external_body]
#[verifier::reject_recursive_types(R)]
#[verifier::reject_recursive_types(T)]
pub struct ExLockApiMutex<R, T: ?Sized>(parking_lot::lock_api::Mutex<R, T>);

/// Relies on postage::watch::channel_with: a sender and a receiver that share
/// one stored value, first `value`.
#[verifier::external_body]
fn watch_channel_with<T: Clone>(value: T) -> (watch::Sender<T>, watch::Receiver<T>) {
    watch::channel_with(value)
}

/// Relies on parking_lot::Mutex::new: a lock that holds `value`.
#[verifier::external_body]
fn new_lock<T>(value: T) -> Mutex<T> {
    Mutex::new(value)
}

/// Relies on parking_lot::Mutex::lock and postage::watch::Sender::borrow_mut:
/// takes the lock, replaces the stored value, and releases the lock, after
/// which the receivers are notified.
#[verifier::external_body]
fn store_locked<T>(sender: &Mutex<watch::Sender<T>>, value: T) {
    *sender.lock().borrow_mut() = value;
}

/// Relies on postage::watch::Receiver::clone: a receiver of the same channel.
#[verifier::external_body]
fn clone_receiver<T>(receiver: &watch::Receiver<T>) -> watch::Receiver<T> {
    receiver.clone()
}

/// Relies on postage::watch::Receiver::borrow: a copy of the value stored at
/// the time of the call.
#[verifier::external_body]
fn read_stored<T: Clone>(receiver: &watch::Receiver<T>) -> T {
    receiver.borrow().clone()
}

/// The one writing end of a configuration channel. Snapshots are replaced
/// whole, under a short lock, so the writer may be shared with a thread other
/// than the readers' (behind an `Arc`); it cannot be cloned.
#[verifier::reject_recursive_types(T)]
pub struct ConfigWriter<T> {
    sender: Mutex<watch::Sender<T>>,
}

/// A reading end of a configuration channel. Reading never waits for the
/// writer's lock; any number of readers can be subscribed, each on its own.
#[verifier::reject_recursive_types(T)]
pub struct ConfigReader<T> {
    receiver: watch::Receiver<T>,
}

/// A new channel whose readers see `initial` until the first update, and the
/// writer and first reader of it.
///
/// What a reader sees lives in memory that it shares with the writer, so the
/// value that `current` returns is not stated here: it is the most recent
/// snapshot stored.
pub fn config_channel<T: Clone>(initial: T) -> (ConfigWriter<T>, ConfigReader<T>) {
    let (sender, receiver) = watch_channel_with(initial);
    (ConfigWriter { sender: new_lock(sender) }, ConfigReader { receiver })
}

impl<T> ConfigWriter<T> {
    /// Replaces the snapshot that every reader of the channel sees from now on.
    /// Never fails while the writer lives.
    pub fn update(&self, snapshot: T) {
        store_locked(&self.sender, snapshot);
    }
}

impl<T: Clone> ConfigReader<T> {
    /// A new reader of the same channel, with its own cursor.
    pub fn subscribe(&self) -> ConfigReader<T> {
        ConfigReader { receiver: clone_receiver(&self.receiver) }
    }

    /// The snapshot stored last, or the initial one before any update.
    pub fn current(&self) -> T {
        read_stored(&self.receiver)
    }
}

} // verus!
