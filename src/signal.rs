//! The shutdown signal cell: a single slot holding the one-shot notifier that
//! wakes the server when shutdown is requested. It is taken at most once.

use tokio::sync::oneshot::Sender;
use vstd::prelude::*;

verus! {

/// Declares tokio's `oneshot::Sender`, the sending half of the one-shot
/// channel whose receiver the server awaits; it is carried, never inspected.
#[verifier::external_type_specification]
#[verifier::external_body]
#[verifier::reject_recursive_types(T)]
pub struct ExSender<T>(tokio::sync::oneshot::Sender<T>);

/// Relies on tokio's `oneshot::Sender::send`: it consumes the sender, never
/// panics, and when the receiver is gone hands the value back unchanged.
pub assume_specification<T>[ tokio::sync::oneshot::Sender::<T>::send ](
    tx: tokio::sync::oneshot::Sender<T>,
    t: T,
) -> (r: Result<(), T>)
    ensures
        r matches Err(back) ==> back == t,
;

/// What happened when a trigger tried to fire the signal.
#[derive(Debug, Clone, Copy, PartialEq, Eq, Structural)]
pub enum FireOutcome {
    /// The notifier was taken and the server's receiver got the signal.
    Delivered,
    /// The notifier was taken but its receiver was already gone.
    ReceiverGone,
    /// The notifier had already been taken (or was never set).
    NoSignaler,
}

/// The single-slot holder of the shutdown notifier.
pub struct ShutdownSignal {
    slot: Option<Sender<bool>>,
}

impl ShutdownSignal {
    /// Whether the notifier is still in the slot.
    pub closed spec fn is_armed(&self) -> bool {
        self.slot is Some
    }

    /// The notifier in the slot, if any.
    pub closed spec fn notifier(&self) -> Option<Sender<bool>> {
        self.slot
    }

    /// A cell pre-loaded with the sending half of the shutdown channel.
    pub fn new(tx: Sender<bool>) -> (r: ShutdownSignal)
        ensures
            r.is_armed(),
            r.notifier() == Some(tx),
    {
        ShutdownSignal { slot: Some(tx) }
    }

    /// A cell with nothing in it: every attempt to fire it finds it empty.
    pub fn empty() -> (r: ShutdownSignal)
        ensures
            !r.is_armed(),
    {
        ShutdownSignal { slot: None }
    }

    /// Whether the notifier is still in the slot.
    pub fn armed(&self) -> (r: bool)
        ensures
            r == self.is_armed(),
    {
        self.slot.is_some()
    }

    /// Removes the notifier: the caller that finds it present gets it, and
    /// the slot is empty afterwards whatever it held.
    pub fn take(&mut self) -> (r: Option<Sender<bool>>)
        ensures
            r is Some == old(self).is_armed(),
            r == old(self).notifier(),
            !final(self).is_armed(),
    {
        self.slot.take()
    }

    /// Takes the notifier and signals the server through it.
    pub fn fire(&mut self) -> (r: FireOutcome)
        ensures
            (r == FireOutcome::NoSignaler) == !old(self).is_armed(),
            !final(self).is_armed(),
    {
        match self.take() {
            Some(tx) => match tx.send(true) {
                Ok(()) => FireOutcome::Delivered,
                Err(_) => FireOutcome::ReceiverGone,
            },
            None => FireOutcome::NoSignaler,
        }
    }
}

/// Which of `n` successive attempts to take the notifier obtain it, starting
/// from a cell that is armed or not. Each attempt follows `take`: it obtains
/// the notifier exactly when the cell is armed, and leaves the cell empty.
/// Concurrent triggers reach the cell one at a time under its lock, so any
/// interleaving of them is such a sequence.
pub open spec fn take_attempts(armed: bool, n: nat) -> Seq<bool>
    decreases n,
{
    if n == 0 {
        Seq::empty()
    } else {
        seq![armed] + take_attempts(false, (n - 1) as nat)
    }
}

/// How many entries of `s` are true.
pub open spec fn count_true(s: Seq<bool>) -> nat
    decreases s.len(),
{
    if s.len() == 0 {
        0
    } else {
        (if s[0] {
            1nat
        } else {
            0nat
        }) + count_true(s.drop_first())
    }
}

/// Of any number of attempts to take the notifier, exactly one obtains it
/// when the cell starts armed, none when it starts empty, and every attempt
/// after the first observes an empty cell.
pub proof fn lemma_taken_exactly_once(armed: bool, n: nat)
    ensures
        take_attempts(armed, n).len() == n,
        count_true(take_attempts(armed, n)) == (if armed && n > 0 {
            1nat
        } else {
            0nat
        }),
        forall|i: int| 1 <= i < n ==> !#[trigger] take_attempts(armed, n)[i],
    decreases n,
{
    if n > 0 {
        let rest = take_attempts(false, (n - 1) as nat);
        lemma_taken_exactly_once(false, (n - 1) as nat);
        let s = take_attempts(armed, n);
        assert(s.drop_first() =~= rest);
        assert forall|i: int| 1 <= i < n implies !#[trigger] s[i] by {
            assert(s[i] == rest[i - 1]);
            if i >= 2 {
                assert(!rest[i - 1]);
            } else {
                assert(rest[0] == false) by {
                    reveal_with_fuel(take_attempts, 2);
                }
            }
        }
    }
}

} // verus!
