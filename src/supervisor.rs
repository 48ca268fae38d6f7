//! The single slot that holds the running worker, and every decision about it.
//!
//! A host keeps one `Supervisor` behind a mutual-exclusion lock and runs each
//! operation while holding it: `begin_start` then, on `Spawn`, the spawn and
//! `finish_start`; or `begin_stop`, after which the lock is released and the
//! handle that came out is terminated. The slot holds at most one handle, so
//! at most one worker is ever owned.

use vstd::prelude::*;

verus! {

/// What a start request must do.
#[derive(Clone, Copy, Debug, PartialEq, Eq, Structural)]
pub enum StartAction {
    /// A worker is already owned: nothing is spawned.
    AlreadyRunning,
    /// The slot is empty: the worker is to be spawned.
    Spawn,
}

/// What a stop request must do.
pub enum StopAction<H> {
    /// No worker is owned: nothing is to be terminated.
    NotRunning,
    /// This worker has left the slot and is to be terminated.
    Terminate(H),
}

/// Owner of at most one worker handle.
pub struct Supervisor<H> {
    child: Option<H>,
}

/// The decision of a start request on a slot.
pub open spec fn start_decision<H>(slot: Option<H>) -> StartAction {
    if slot is Some {
        StartAction::AlreadyRunning
    } else {
        StartAction::Spawn
    }
}

/// The slot after a start request whose spawn, if one was made, gave `h`.
pub open spec fn slot_after_start<H>(slot: Option<H>, h: H) -> Option<H> {
    if slot is Some {
        slot
    } else {
        Some(h)
    }
}

/// The decision of a stop request on a slot.
pub open spec fn stop_decision<H>(slot: Option<H>) -> StopAction<H> {
    match slot {
        Some(h) => StopAction::Terminate(h),
        None => StopAction::NotRunning,
    }
}

/// The slot after a stop request.
pub open spec fn slot_after_stop<H>(slot: Option<H>) -> Option<H> {
    None
}

/// A reply handed to the caller of start or stop, as character sequences.
pub open spec fn reply_view(r: Result<String, String>) -> Result<Seq<char>, Seq<char>> {
    match r {
        Ok(m) => Ok(m@),
        Err(e) => Err(e@),
    }
}

pub open spec fn already_running_text() -> Seq<char> {
    "API server is already running"@
}

pub open spec fn started_text() -> Seq<char> {
    "API server started successfully"@
}

pub open spec fn spawn_failed_text(e: Seq<char>) -> Seq<char> {
    "Failed to spawn API server: "@ + e
}

pub open spec fn not_running_text() -> Seq<char> {
    "API server is not running"@
}

pub open spec fn stopped_text() -> Seq<char> {
    "API server stopped successfully"@
}

pub open spec fn stop_failed_text(e: Seq<char>) -> Seq<char> {
    "Failed to stop API server: "@ + e
}

pub open spec fn lock_failed_text(e: Seq<char>) -> Seq<char> {
    "Failed to lock mutex: "@ + e
}

/// The reply to a stop request whose primary kill gave `killed`.
pub open spec fn stop_reply_of(killed: Result<(), String>) -> Result<Seq<char>, Seq<char>> {
    match killed {
        Ok(_) => Ok(stopped_text()),
        Err(e) => Err(stop_failed_text(e@)),
    }
}

/// The decisions of `hs.len()` start requests made one after another on
/// `slot`, where the `i`-th request, if it spawns, obtains the handle `hs[i]`.
pub open spec fn start_decisions<H>(slot: Option<H>, hs: Seq<H>) -> Seq<StartAction>
    decreases hs.len(),
{
    if hs.len() == 0 {
        Seq::empty()
    } else {
        seq![start_decision(slot)] + start_decisions(slot_after_start(slot, hs[0]), hs.drop_first())
    }
}

/// The slot after those start requests.
pub open spec fn slot_after_starts<H>(slot: Option<H>, hs: Seq<H>) -> Option<H>
    decreases hs.len(),
{
    if hs.len() == 0 {
        slot
    } else {
        slot_after_starts(slot_after_start(slot, hs[0]), hs.drop_first())
    }
}

proof fn lemma_starts_on_owned<H>(h: H, hs: Seq<H>)
    ensures
        start_decisions(Some(h), hs).len() == hs.len(),
        forall|i: int|
            0 <= i < hs.len() ==> start_decisions(Some(h), hs)[i] == StartAction::AlreadyRunning,
        slot_after_starts(Some(h), hs) == Some(h),
    decreases hs.len(),
{
    if hs.len() > 0 {
        lemma_starts_on_owned(h, hs.drop_first());
        let rest = start_decisions(Some(h), hs.drop_first());
        assert forall|i: int| 0 <= i < hs.len() implies start_decisions(Some(h), hs)[i]
            == StartAction::AlreadyRunning by {
            if i > 0 {
                assert(start_decisions(Some(h), hs)[i] == rest[i - 1]);
            }
        }
    }
}

/// Start requests serialised by the lock spawn exactly once: on an empty
/// slot, the first of any number of start requests spawns and keeps its
/// handle, and every later one finds the worker already running.
pub proof fn lemma_starts_spawn_once<H>(hs: Seq<H>)
    requires
        hs.len() >= 1,
    ensures
        start_decisions(None, hs).len() == hs.len(),
        start_decisions(None, hs)[0] == StartAction::Spawn,
        forall|i: int|
            1 <= i < hs.len() ==> start_decisions(None, hs)[i] == StartAction::AlreadyRunning,
        slot_after_starts(None, hs) == Some(hs[0]),
{
    lemma_starts_on_owned(hs[0], hs.drop_first());
    let rest = start_decisions(Some(hs[0]), hs.drop_first());
    assert forall|i: int| 1 <= i < hs.len() implies start_decisions(None, hs)[i]
        == StartAction::AlreadyRunning by {
        assert(start_decisions(None, hs)[i] == rest[i - 1]);
    }
}

/// A stop empties the slot whatever it held, so the next start spawns and
/// keeps the handle it obtained.
pub proof fn lemma_stop_then_start_spawns<H>(slot: Option<H>, h: H)
    ensures
        slot_after_stop(slot) is None,
        start_decision(slot_after_stop(slot)) == StartAction::Spawn,
        slot_after_start(slot_after_stop(slot), h) == Some(h),
{
}

/// A start, a stop and a start from an empty slot: the first start spawns
/// `h1`, the stop hands `h1` out to be terminated and empties the slot, and
/// the second start spawns again and leaves only `h2` in the slot.
pub proof fn lemma_start_stop_start<H>(h1: H, h2: H)
    ensures
        start_decision(None::<H>) == StartAction::Spawn,
        slot_after_start(None::<H>, h1) == Some(h1),
        stop_decision(slot_after_start(None::<H>, h1)) == StopAction::Terminate(h1),
        start_decision(slot_after_stop(slot_after_start(None::<H>, h1))) == StartAction::Spawn,
        slot_after_start(slot_after_stop(slot_after_start(None::<H>, h1)), h2) == Some(h2),
{
}

impl<H> Supervisor<H> {
    /// The handle that the slot holds, if any.
    pub closed spec fn slot(&self) -> Option<H> {
        self.child
    }

    /// A supervisor with an empty slot.
    pub fn new() -> (r: Self)
        ensures
            r.slot() is None,
    {
        Supervisor { child: None }
    }

    /// Whether a worker is owned.
    pub fn is_running(&self) -> (r: bool)
        ensures
            r == self.slot() is Some,
    {
        self.child.is_some()
    }

    /// Decides a start request: spawn only when the slot is empty.
    pub fn begin_start(&self) -> (r: StartAction)
        ensures
            r == start_decision(self.slot()),
    {
        if self.child.is_some() {
            StartAction::AlreadyRunning
        } else {
            StartAction::Spawn
        }
    }

    /// The reply to a start request that found a worker already running.
    pub fn already_running() -> (r: Result<String, String>)
        ensures
            reply_view(r) == Ok::<Seq<char>, Seq<char>>(already_running_text()),
    {
        Ok(String::from_str("API server is already running"))
    }

    /// Completes a start request that spawned: keeps the new handle, or, if
    /// the spawn failed, leaves the slot empty and describes the error.
    pub fn finish_start(&mut self, spawned: Result<H, String>) -> (r: Result<String, String>)
        requires
            old(self).slot() is None,
        ensures
            match spawned {
                Ok(h) => final(self).slot() == Some(h) && reply_view(r) == Ok::<
                    Seq<char>,
                    Seq<char>,
                >(started_text()),
                Err(e) => final(self).slot() is None && reply_view(r) == Err::<
                    Seq<char>,
                    Seq<char>,
                >(spawn_failed_text(e@)),
            },
    {
        match spawned {
            Ok(h) => {
                self.child = Some(h);
                Ok(String::from_str("API server started successfully"))
            },
            Err(e) => {
                let mut m = String::from_str("Failed to spawn API server: ");
                m.append(e.as_str());
                Err(m)
            },
        }
    }

    /// Decides a stop request: the handle, if any, is taken out of the slot,
    /// which is empty afterwards.
    pub fn begin_stop(&mut self) -> (r: StopAction<H>)
        ensures
            final(self).slot() == slot_after_stop(old(self).slot()),
            final(self).slot() is None,
            r == stop_decision(old(self).slot()),
    {
        match self.child.take() {
            Some(h) => StopAction::Terminate(h),
            None => StopAction::NotRunning,
        }
    }

    /// The reply to a stop request that found no worker.
    pub fn not_running() -> (r: Result<String, String>)
        ensures
            reply_view(r) == Ok::<Seq<char>, Seq<char>>(not_running_text()),
    {
        Ok(String::from_str("API server is not running"))
    }

    /// The reply to a stop request, from the outcome of the primary kill.
    pub fn finish_stop(killed: Result<(), String>) -> (r: Result<String, String>)
        ensures
            reply_view(r) == stop_reply_of(killed),
    {
        match killed {
            Ok(_) => Ok(String::from_str("API server stopped successfully")),
            Err(e) => {
                let mut m = String::from_str("Failed to stop API server: ");
                m.append(e.as_str());
                Err(m)
            },
        }
    }

    /// The reply to a request that could not take the lock around the slot.
    pub fn lock_failed(e: &str) -> (r: Result<String, String>)
        ensures
            reply_view(r) == Err::<Seq<char>, Seq<char>>(lock_failed_text(e@)),
    {
        let mut m = String::from_str("Failed to lock mutex: ");
        m.append(e);
        Err(m)
    }
}

} // verus!
