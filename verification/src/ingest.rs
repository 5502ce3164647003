//! The rules of ingestion: what is queued, and what the background worker
//! does with each thing it takes from the queue.
//!
//! The worker owns one store and serialises every write. Whoever drives it
//! hands it, one at a time, what the queue gave: an observation, or the news
//! that the queue is closed and empty.

use vstd::prelude::*;
use crate::store::{Database, StoreError};

verus! {

/// How many observations may wait in the queue before a producer is held up.
pub const QUEUE_CAPACITY: usize = 10;

/// One observed download.
#[derive(Debug, Clone)]
pub struct CargoRequest {
    pub name: String,
    pub version: String,
    pub hit: bool,
    pub size: i64,
}

/// Why an observation could not be submitted.
#[derive(Debug, Clone, Copy, PartialEq, Eq)]
pub enum SubmissionError {
    /// Ingestion has shut down for good: nothing takes from the queue.
    Closed,
}

/// The two states of the worker.
#[derive(Debug, Clone, Copy, PartialEq, Eq)]
pub enum WorkerState {
    /// Taking observations from the queue.
    Running,
    /// The queue was closed and empty; nothing more is recorded.
    Stopped,
}

/// The worker's state and its tallies of what was recorded and what was
/// dropped because the store refused it.
#[derive(Debug, Clone, Copy, PartialEq, Eq)]
pub struct Worker {
    pub state: WorkerState,
    pub recorded: u64,
    pub dropped: u64,
}

/// A tally after one more item: it stops at the largest value.
pub open spec fn bumped(n: u64) -> u64 {
    if n == u64::MAX {
        n
    } else {
        (n + 1) as u64
    }
}

/// The worker after the store has answered for one observation: one more
/// recorded where it was accepted, one more dropped where it was refused.
pub open spec fn settled(w: Worker, accepted: bool) -> Worker {
    if accepted {
        Worker { recorded: bumped(w.recorded), ..w }
    } else {
        Worker { dropped: bumped(w.dropped), ..w }
    }
}

/// The worker after the queue was found closed and empty.
pub open spec fn halted(w: Worker) -> Worker {
    Worker { state: WorkerState::Stopped, ..w }
}

fn bump(n: u64) -> (m: u64)
    ensures
        m == bumped(n),
{
    if n == u64::MAX {
        n
    } else {
        n + 1
    }
}

impl Worker {
    /// A worker that is running and has seen nothing yet.
    pub fn new() -> (w: Worker)
        ensures
            w == (Worker { state: WorkerState::Running, recorded: 0, dropped: 0 }),
    {
        Worker { state: WorkerState::Running, recorded: 0, dropped: 0 }
    }

    /// Whether the worker still takes observations.
    pub fn is_running(&self) -> (b: bool)
        ensures
            b == (self.state is Running),
    {
        match self.state {
            WorkerState::Running => true,
            WorkerState::Stopped => false,
        }
    }

    /// Takes note of the store's answer for one observation. A refusal is
    /// counted and changes nothing else: the worker goes on.
    pub fn settle(&mut self, outcome: &Result<(), StoreError>)
        ensures
            *final(self) == settled(*old(self), outcome is Ok),
    {
        match outcome {
            Ok(_) => {
                self.recorded = bump(self.recorded);
            },
            Err(_) => {
                self.dropped = bump(self.dropped);
            },
        }
    }

    /// One turn of the worker on what the queue gave. While running, an
    /// observation is written to the store and tallied, and the worker stays
    /// running whether or not the store took it; the end of the queue stops
    /// the worker. A stopped worker does nothing. Returns whether the worker
    /// is running afterwards.
    pub fn step(&mut self, db: &Database, item: Option<CargoRequest>) -> (running: bool)
        ensures
            running == (final(self).state is Running),
            old(self).state is Stopped ==> *final(self) == *old(self),
            old(self).state is Running && item is None ==> *final(self) == halted(*old(self)),
            old(self).state is Running && item is Some ==> *final(self) == settled(
                *old(self),
                true,
            ) || *final(self) == settled(*old(self), false),
    {
        if !self.is_running() {
            return false;
        }
        match item {
            Some(req) => {
                let outcome = db.add_request(req.name.as_str(), req.version.as_str(), req.hit, req.size);
                self.settle(&outcome);
                true
            },
            None => {
                self.state = WorkerState::Stopped;
                false
            },
        }
    }
}

/// Settling an observation leaves the worker's state as it was and lowers
/// neither tally; short of the largest value, the two tallies together grow
/// by exactly one, so each observation is counted once.
pub proof fn settled_counts_once(w: Worker, accepted: bool)
    ensures
        settled(w, accepted).state == w.state,
        settled(w, accepted).recorded >= w.recorded,
        settled(w, accepted).dropped >= w.dropped,
        w.recorded < u64::MAX && w.dropped < u64::MAX ==> settled(w, accepted).recorded + settled(
            w,
            accepted,
        ).dropped == w.recorded + w.dropped + 1,
{
}

} // verus!
