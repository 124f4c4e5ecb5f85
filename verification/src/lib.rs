//! A tick-driven executor core for cooperative suspend/resume tasks.
//!
//! The library bridges a suspend/resume task model with a discrete,
//! tick-driven entity store. Each in-flight task lives in a slot keyed by an
//! entity id, together with a wake marker and, once the task completes, its
//! output. Every tick runs two phases: a Poll Phase that polls each marked
//! slot exactly once, and a Wake Phase that drains the wake signals that
//! arrived before the tick began and re-marks those slots for the following
//! tick — a wake signaled during a poll therefore waits a full tick of
//! quiescence before it can cause a re-poll.
//!
//! `executor` holds the verified protocol state machine, `laws` the proofs of
//! its scheduling guarantees, and `channel` the process-wide wake channel that
//! carries wake signals from arbitrary execution contexts back to the ticking
//! thread.
use vstd::prelude::*;

pub mod channel;
pub mod executor;
pub mod laws;

verus! {

/// The wake marker: attached to an entity exactly when its task is eligible
/// for polling on the next Poll Phase.
pub struct Awake;

/// The final result of a completed task, attached to the entity that owned
/// the task. Created once, at completion, and never mutated afterwards.
pub struct Output<T>(pub T);

} // verus!
