//! The handshake between a starter and the thread that installs Windows hooks.
//!
//! The starter waits a short while for the hook thread. The hook thread, once it has tried to
//! install its hooks, keeps them only if all went in and the starter is still waiting; the
//! starter, once the wait is over, takes the thread only if it reported running, and otherwise
//! abandons it. Whichever finishes first, the hooks stay installed exactly when the starter got
//! the thread, so no hook is ever left running unowned.

use vstd::prelude::*;

verus! {

#[derive(Debug, Clone, Copy, PartialEq, Eq, Structural)]
pub enum Handshake {
    /// Neither side has finished.
    Waiting,
    /// The hooks are in, on this thread.
    Running(u32),
    /// The starter stopped waiting: the hook thread must remove its hooks.
    Abandoned,
    /// A hook could not be installed.
    Failed,
}

/// The hook thread's step, once it has tried every hook: the next state, and whether it keeps
/// its hooks and runs.
pub open spec fn hook_step(state: Handshake, complete: bool, thread: u32) -> (Handshake, bool) {
    if !complete || state is Abandoned {
        (if state is Waiting { Handshake::Failed } else { state }, false)
    } else {
        (Handshake::Running(thread), true)
    }
}

/// The starter's step, once its wait is over: the next state, and the thread it takes.
pub open spec fn starter_step(state: Handshake) -> (Handshake, Option<u32>) {
    match state {
        Handshake::Running(t) => (state, Some(t)),
        _ => (Handshake::Abandoned, None),
    }
}

/// The hook thread settles the handshake. `complete` says whether every hook went in.
pub fn hook_thread_settles(state: &mut Handshake, complete: bool, thread: u32) -> (keep: bool)
    ensures
        (*final(state), keep) == hook_step(*old(state), complete, thread),
{
    if !complete || matches!(*state, Handshake::Abandoned) {
        if matches!(*state, Handshake::Waiting) {
            *state = Handshake::Failed;
        }
        false
    } else {
        *state = Handshake::Running(thread);
        true
    }
}

/// The starter settles the handshake when its wait ends.
pub fn starter_settles(state: &mut Handshake) -> (r: Option<u32>)
    ensures
        (*final(state), r) == starter_step(*old(state)),
{
    match *state {
        Handshake::Running(t) => Some(t),
        _ => {
            *state = Handshake::Abandoned;
            None
        },
    }
}

/// Whoever finishes first, the hooks are kept exactly when the starter takes the thread, and
/// the thread it takes is the one running them.
pub proof fn law_hooks_kept_exactly_when_taken(complete: bool, thread: u32)
    ensures
        ({
            let (s1, keep) = hook_step(Handshake::Waiting, complete, thread);
            let (s2, got) = starter_step(s1);
            &&& keep <==> got is Some
            &&& got is Some ==> got == Some(thread)
        }),
        ({
            let (s1, got) = starter_step(Handshake::Waiting);
            let (s2, keep) = hook_step(s1, complete, thread);
            &&& got is None
            &&& !keep
        }),
{
}

} // verus!
