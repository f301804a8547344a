//! The broadcast shutdown signal: a registration-counted fan-out over one
//! channel. Workers register before the first signal; signalling sends the
//! value once per registered worker.

use vstd::prelude::*;

verus! {

/// What a worker is told: end immediately, or end the current cycle so
/// the outer loop can log in again.
#[derive(Debug, Clone, Copy, PartialEq, Eq, Structural)]
pub enum ExitSignal {
    Terminate,
    NeedLogin,
}

#[verifier::external_type_specification]
#[verifier::external_body]
#[verifier::reject_recursive_types(T)]
pub struct ExSender<T>(crossbeam_channel::Sender<T>);

#[verifier::external_type_specification]
#[verifier::external_body]
#[verifier::reject_recursive_types(T)]
pub struct ExReceiver<T>(crossbeam_channel::Receiver<T>);

/// Relies on crossbeam_channel::unbounded to create the shared queue the
/// fan-out sends through.
#[verifier::external_body]
fn exit_channel() -> (crossbeam_channel::Sender<ExitSignal>, crossbeam_channel::Receiver<
    ExitSignal,
>) {
    crossbeam_channel::unbounded()
}

/// Relies on crossbeam_channel::Sender::send; a send can fail only when
/// every receiver is gone, and the fan-out ignores that outcome.
#[verifier::external_body]
fn send_exit(tx: &crossbeam_channel::Sender<ExitSignal>, v: &ExitSignal) {
    let _ = tx.send(*v);
}

/// Relies on crossbeam_channel::Receiver::clone: the clone receives from
/// the same shared queue.
#[verifier::external_body]
fn clone_receiver(rx: &crossbeam_channel::Receiver<ExitSignal>) -> crossbeam_channel::Receiver<
    ExitSignal,
> {
    rx.clone()
}

/// The fan-out: one sender, one shared receiver handed out per
/// registration, and the count of registrations, which must be complete
/// before the first signal.
pub struct Sig {
    pub tx: crossbeam_channel::Sender<ExitSignal>,
    pub rx: crossbeam_channel::Receiver<ExitSignal>,
    pub nb_rx: usize,
}

impl Sig {
    /// A fresh fan-out with no registered subscribers.
    pub fn new() -> (s: Sig)
        ensures
            s.nb_rx == 0,
    {
        let (tx, rx) = exit_channel();
        Sig { tx, rx, nb_rx: 0 }
    }

    /// Register one more subscriber and hand it its receive handle.
    pub fn clone(&mut self) -> (r: crossbeam_channel::Receiver<ExitSignal>)
        requires
            old(self).nb_rx < usize::MAX,
        ensures
            final(self).nb_rx == old(self).nb_rx + 1,
            final(self).tx == old(self).tx,
            final(self).rx == old(self).rx,
    {
        self.nb_rx = self.nb_rx + 1;
        clone_receiver(&self.rx)
    }

    /// Broadcast the signal: send it once per registered subscriber, and
    /// return how many copies were sent.
    pub fn signal(&self, signal: &ExitSignal) -> (sent: usize)
        ensures
            sent == self.nb_rx,
    {
        let n: usize = self.nb_rx;
        let mut i: usize = 0;
        while i < n
            invariant
                0 <= i <= n,
            decreases n - i,
        {
            send_exit(&self.tx, signal);
            i = i + 1;
        }
        n
    }
}

} // verus!
