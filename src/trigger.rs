//! Routing of inbound requests and the authenticated shutdown endpoint.

use crate::signal::ShutdownSignal;
use vstd::prelude::*;

verus! {

/// Where the router sends a request.
#[derive(Debug, Clone, Copy, PartialEq, Eq, Structural)]
pub enum Route {
    /// `GET /shutdown`: handled by the shutdown trigger.
    Trigger,
    /// Anything else: handed to the forwarding proxy.
    Forward,
}

/// The answer of the shutdown endpoint.
#[derive(Debug, Clone, Copy, PartialEq, Eq, Structural)]
pub enum TriggerReply {
    /// The key was missing or wrong: answered as an unknown route.
    NotFound,
    /// The key matched and the notifier was fired.
    Success,
    /// The key matched but the notifier had already been taken.
    Failure,
}

impl TriggerReply {
    /// The HTTP status code of the answer. A refused trigger is not an error
    /// of the request: it keeps a normal status and says so in its body.
    pub fn status(&self) -> (r: u16)
        ensures
            r == (match *self {
                TriggerReply::NotFound => 404u16,
                _ => 200u16,
            }),
    {
        match self {
            TriggerReply::NotFound => 404,
            _ => 200,
        }
    }

    /// The body of the answer.
    pub fn body(&self) -> (r: &'static str)
        ensures
            r@ == (match *self {
                TriggerReply::NotFound => ""@,
                TriggerReply::Success => "success"@,
                TriggerReply::Failure => "failure"@,
            }),
    {
        match self {
            TriggerReply::NotFound => "",
            TriggerReply::Success => "success",
            TriggerReply::Failure => "failure",
        }
    }
}

/// Whether a request with this method and path is the shutdown trigger.
pub open spec fn is_trigger_request(method: Seq<char>, path: Seq<char>) -> bool {
    method == "GET"@ && path == "/shutdown"@
}

/// Whether the presented `key` query parameter authorizes a shutdown.
pub open spec fn key_accepted(presented: Option<Seq<char>>, key: Seq<char>) -> bool {
    presented == Some(key)
}

/// The endpoint's answer, given what was presented and whether the notifier
/// was still in its cell.
pub open spec fn trigger_reply(presented: Option<Seq<char>>, key: Seq<char>, armed: bool) -> TriggerReply {
    if !key_accepted(presented, key) {
        TriggerReply::NotFound
    } else if armed {
        TriggerReply::Success
    } else {
        TriggerReply::Failure
    }
}

/// The view of an optional string parameter.
pub open spec fn opt_view(o: Option<&str>) -> Option<Seq<char>> {
    match o {
        Some(s) => Some(s@),
        None => None,
    }
}

/// Compares two strings over their full length. The loop looks at every
/// byte whatever it finds, so the time taken does not reveal how long a
/// prefix of a guessed key was right.
pub fn keys_match(presented: &str, expected: &str) -> (r: bool)
    ensures
        r == (presented@ == expected@),
{
    let a = presented.as_bytes();
    let b = expected.as_bytes();
    proof {
        vstd::utf8::encode_utf8_decode_utf8(presented@);
        vstd::utf8::encode_utf8_decode_utf8(expected@);
    }
    if a.len() != b.len() {
        return false;
    }
    let mut diff: u8 = 0;
    let mut i: usize = 0;
    while i < a.len()
        invariant
            i <= a.len(),
            a.len() == b.len(),
            (diff == 0) == (forall|j: int| 0 <= j < i ==> a@[j] == b@[j]),
        decreases a.len() - i,
    {
        let x = a[i];
        let y = b[i];
        assert(((diff | (x ^ y)) == 0) == (diff == 0 && x == y)) by (bit_vector);
        diff = diff | (x ^ y);
        i = i + 1;
    }
    assert((diff == 0) == (a@ =~= b@));
    diff == 0
}

/// Decides where the router sends a request.
pub fn classify(method: &str, path: &str) -> (r: Route)
    ensures
        (r == Route::Trigger) == is_trigger_request(method@, path@),
{
    if keys_match(method, "GET") && keys_match(path, "/shutdown") {
        Route::Trigger
    } else {
        Route::Forward
    }
}

/// Handles `GET /shutdown?key=..`: with the right key the notifier is
/// fired; with a missing or wrong one the cell is left alone and the answer
/// is the same as for an unknown route.
pub fn handle_trigger(cell: &mut ShutdownSignal, presented: Option<&str>, shutdown_key: &str) -> (r: TriggerReply)
    ensures
        r == trigger_reply(opt_view(presented), shutdown_key@, old(cell).is_armed()),
        !key_accepted(opt_view(presented), shutdown_key@) ==> *final(cell) == *old(cell),
        final(cell).is_armed() == (old(cell).is_armed() && !key_accepted(opt_view(presented), shutdown_key@)),
{
    let accepted = match presented {
        Some(p) => keys_match(p, shutdown_key),
        None => false,
    };
    if !accepted {
        return TriggerReply::NotFound;
    }
    match cell.fire() {
        crate::signal::FireOutcome::NoSignaler => TriggerReply::Failure,
        _ => TriggerReply::Success,
    }
}

/// Two requests with the right key, one after the other: the first
/// succeeds exactly when the notifier was still there, and the second always
/// fails, so of the two at most one succeeds, and exactly one when the cell
/// started armed.
pub proof fn lemma_second_trigger_fails(key: Seq<char>, armed: bool)
    ensures
        trigger_reply(Some(key), key, armed) == (if armed {
            TriggerReply::Success
        } else {
            TriggerReply::Failure
        }),
        trigger_reply(Some(key), key, armed && !key_accepted(Some(key), key)) == TriggerReply::Failure,
{
}

} // verus!
