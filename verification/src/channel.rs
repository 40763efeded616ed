//! The pool's job queue: a multi-producer FIFO channel whose receiving end is
//! shared by all workers behind a lock, so that each queued message is
//! delivered to exactly one worker.
use vstd::prelude::*;

verus! {

/// The sending half of the pool's control queue.
#[verifier::external_body]
#[verifier::reject_recursive_types(T)]
pub(crate) struct JobSender<T> {
    inner: std::sync::mpsc::Sender<T>,
}

/// The receiving half of the pool's control queue. Every worker holds one
/// handle; the lock inside guarantees at-most-one-delivery-per-item.
#[verifier::external_body]
#[verifier::reject_recursive_types(T)]
pub(crate) struct SharedReceiver<T> {
    inner: std::sync::Arc<std::sync::Mutex<std::sync::mpsc::Receiver<T>>>,
}

/// Relies on `std::sync::mpsc::channel`: an unbounded FIFO queue. The receiver
/// is wrapped behind a lock so the workers can share it.
#[verifier::external_body]
pub(crate) fn control_channel<T>() -> (JobSender<T>, SharedReceiver<T>) {
    let (sender, receiver) = std::sync::mpsc::channel();
    (
        JobSender { inner: sender },
        SharedReceiver { inner: std::sync::Arc::new(std::sync::Mutex::new(receiver)) },
    )
}

impl<T> JobSender<T> {
    /// Relies on `mpsc::Sender::send`: it queues the message, and fails only
    /// when every receiver handle is gone. Which of the two happened is all
    /// the result tells; nothing is assumed about the queue's contents.
    #[verifier::external_body]
    pub(crate) fn send(&self, message: T) -> (accepted: bool) {
        self.inner.send(message).is_ok()
    }
}

impl<T> SharedReceiver<T> {
    /// Relies on `std::sync::Arc::clone`: another handle to the same receiver.
    #[verifier::external_body]
    pub(crate) fn duplicate(&self) -> SharedReceiver<T> {
        SharedReceiver { inner: std::sync::Arc::clone(&self.inner) }
    }

    /// Relies on `std::sync::Mutex::lock` and `mpsc::Receiver::recv`: blocks
    /// until a message arrives and hands it out, or returns nothing once every
    /// sender is gone (or the lock is poisoned). Any message may come back;
    /// nothing is assumed about which.
    #[verifier::external_body]
    pub(crate) fn recv(&self) -> (message: Option<T>) {
        match self.inner.lock() {
            Ok(receiver) => receiver.recv().ok(),
            Err(_) => None,
        }
    }
}

} // verus!
