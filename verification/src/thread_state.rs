//! The cache of stopped-state data, one entry per thread the adapter reported.
//!
//! An entry comes into being when its thread first stops and leaves when the
//! thread exits, so the cache never outgrows the set of live threads that have
//! stopped. What is cached for a thread belongs to one stop: the next stop of
//! that thread begins with an empty entry.

use std::collections::HashMap;
use vstd::prelude::*;

verus! {

/// A stack frame as the adapter reports it. The cache carries frames through
/// and never looks inside one.
#[verifier::external_type_specification]
#[verifier::external_body]
pub struct ExStackFrame(dap_types::StackFrame);

/// A scope of a stack frame, carried through unread.
#[verifier::external_type_specification]
#[verifier::external_body]
pub struct ExScope(dap_types::Scope);

/// A variable of a scope, carried through unread.
#[verifier::external_type_specification]
#[verifier::external_body]
pub struct ExVariable(dap_types::Variable);

/// What a thread of the debuggee is doing, as far as the client knows.
#[derive(Copy, Clone, Debug, PartialEq, Eq, Structural, PartialOrd, Ord, Hash)]
pub enum ThreadStatus {
    Running,
    Stopped,
    Ended,
}

impl Default for ThreadStatus {
    fn default() -> (status: Self)
        ensures
            status == ThreadStatus::Running,
    {
        ThreadStatus::Running
    }
}

/// The cached data of one thread: its status, and what was fetched while it
/// was stopped.
#[derive(Debug, Clone)]
pub struct ThreadState {
    pub status: ThreadStatus,
    pub stack_frames: Vec<dap_types::StackFrame>,
    /// Scopes by the id of the stack frame they belong to.
    pub scopes: HashMap<u64, Vec<dap_types::Scope>>,
    /// Variables by the reference of the scope or variable that holds them.
    pub variables: HashMap<u64, Vec<dap_types::Variable>>,
    pub current_stack_frame_id: Option<u64>,
}

/// What a `ThreadState` holds, as mathematics.
pub struct ThreadStateView {
    pub status: ThreadStatus,
    pub stack_frames: Seq<dap_types::StackFrame>,
    pub scopes: Map<u64, Seq<dap_types::Scope>>,
    pub variables: Map<u64, Seq<dap_types::Variable>>,
    pub current_stack_frame_id: Option<u64>,
}

impl ThreadStateView {
    /// The entry of a thread of which nothing is cached.
    pub open spec fn fresh(status: ThreadStatus) -> ThreadStateView {
        ThreadStateView {
            status,
            stack_frames: Seq::empty(),
            scopes: Map::empty(),
            variables: Map::empty(),
            current_stack_frame_id: None,
        }
    }
}

impl View for ThreadState {
    type V = ThreadStateView;

    open spec fn view(&self) -> ThreadStateView {
        ThreadStateView {
            status: self.status,
            stack_frames: self.stack_frames@,
            scopes: self.scopes@.map_values(|scopes: Vec<dap_types::Scope>| scopes@),
            variables: self.variables@.map_values(|variables: Vec<dap_types::Variable>| variables@),
            current_stack_frame_id: self.current_stack_frame_id,
        }
    }
}

impl ThreadState {
    /// A state with the given status and nothing cached.
    pub fn with_status(status: ThreadStatus) -> (state: Self)
        ensures
            state@ == ThreadStateView::fresh(status),
    {
        let state = ThreadState {
            status,
            stack_frames: Vec::new(),
            scopes: HashMap::new(),
            variables: HashMap::new(),
            current_stack_frame_id: None,
        };
        assert(state@.scopes =~= Map::empty());
        assert(state@.variables =~= Map::empty());
        state
    }
}

impl Default for ThreadState {
    fn default() -> (state: Self)
        ensures
            state@ == ThreadStateView::fresh(ThreadStatus::Running),
    {
        ThreadState::with_status(ThreadStatus::Running)
    }
}

/// The answer to a lookup of a thread the adapter never reported.
#[derive(Copy, Clone, Debug, PartialEq, Eq, Structural)]
pub struct UnknownThread {
    pub thread_id: u64,
}

/// The cache itself: thread id to cached state.
pub struct ThreadStates {
    states: HashMap<u64, ThreadState>,
}

impl View for ThreadStates {
    type V = Map<u64, ThreadStateView>;

    closed spec fn view(&self) -> Map<u64, ThreadStateView> {
        self.states@.map_values(|state: ThreadState| state@)
    }
}

/// The answer to an update of the entry of `thread_id`: the entry is replaced
/// where the thread is known; else the update is refused and nothing changes.
pub open spec fn entry_updated(
    before: Map<u64, ThreadStateView>,
    after: Map<u64, ThreadStateView>,
    thread_id: u64,
    entry: ThreadStateView,
    done: Result<(), UnknownThread>,
) -> bool {
    if before.contains_key(thread_id) {
        done is Ok && after == before.insert(thread_id, entry)
    } else {
        done == Err::<(), UnknownThread>(UnknownThread { thread_id }) && after == before
    }
}

impl ThreadStates {
    pub fn new() -> (cache: Self)
        ensures
            cache@ == Map::<u64, ThreadStateView>::empty(),
    {
        let cache = ThreadStates { states: HashMap::new() };
        assert(cache@ =~= Map::empty());
        cache
    }

    /// The number of threads with an entry.
    pub fn len(&self) -> (n: usize)
        ensures
            n == self@.len(),
            self@.dom().finite(),
    {
        broadcast use vstd::std_specs::hash::group_hash_axioms;

        assert(self@.dom() =~= self.states@.dom());
        self.states.len()
    }

    pub fn contains(&self, thread_id: u64) -> (known: bool)
        ensures
            known == self@.contains_key(thread_id),
    {
        broadcast use vstd::std_specs::hash::group_hash_axioms;

        self.states.contains_key(&thread_id)
    }

    /// The cached state of `thread_id`, or `UnknownThread` where the adapter
    /// never reported that thread.
    pub fn thread_state_by_id(&self, thread_id: u64) -> (found: Result<&ThreadState, UnknownThread>)
        ensures
            self@.contains_key(thread_id) ==> (found matches Ok(state) && state@ == self@[thread_id]),
            !self@.contains_key(thread_id) ==> found == Err::<&ThreadState, UnknownThread>(
                UnknownThread { thread_id },
            ),
    {
        broadcast use vstd::std_specs::hash::group_hash_axioms;

        match self.states.get(&thread_id) {
            Some(state) => Ok(state),
            None => Err(UnknownThread { thread_id }),
        }
    }

    /// Sets the status of a known thread and leaves the rest of its entry as
    /// it was. For an unknown thread nothing changes: no entry is made.
    pub fn update_thread_state_status(&mut self, thread_id: u64, status: ThreadStatus)
        ensures
            old(self)@.contains_key(thread_id) ==> final(self)@ == old(self)@.insert(
                thread_id,
                ThreadStateView { status, ..old(self)@[thread_id] },
            ),
            !old(self)@.contains_key(thread_id) ==> final(self)@ == old(self)@,
    {
        broadcast use vstd::std_specs::hash::group_hash_axioms;

        match self.states.remove(&thread_id) {
            Some(mut state) => {
                state.status = status;
                self.states.insert(thread_id, state);
                assert(self@ =~= old(self)@.insert(
                    thread_id,
                    ThreadStateView { status, ..old(self)@[thread_id] },
                ));
            },
            None => {
                assert(self@ =~= old(self)@);
            },
        }
    }

    /// Takes in that `thread_id` stopped. The thread gets an entry where it
    /// had none, and what was cached for an earlier stop is dropped.
    pub fn stopped(&mut self, thread_id: u64)
        ensures
            final(self)@ == old(self)@.insert(
                thread_id,
                ThreadStateView::fresh(ThreadStatus::Stopped),
            ),
    {
        broadcast use vstd::std_specs::hash::group_hash_axioms;

        let state = ThreadState::with_status(ThreadStatus::Stopped);
        self.states.insert(thread_id, state);
        assert(self@ =~= old(self)@.insert(
            thread_id,
            ThreadStateView::fresh(ThreadStatus::Stopped),
        ));
    }

    /// Takes in that `thread_id` exited: its entry leaves the cache.
    pub fn exited(&mut self, thread_id: u64)
        ensures
            final(self)@ == old(self)@.remove(thread_id),
    {
        broadcast use vstd::std_specs::hash::group_hash_axioms;

        self.states.remove(&thread_id);
        assert(self@ =~= old(self)@.remove(thread_id));
    }

    /// Drops every entry: the debuggee is gone and its threads with it.
    pub fn clear(&mut self)
        ensures
            final(self)@ == Map::<u64, ThreadStateView>::empty(),
    {
        self.states.clear();
        assert(self@ =~= Map::empty());
    }

    /// Replaces the cached stack of a known thread, and leaves the rest of
    /// its entry as it was.
    pub fn set_stack_frames(&mut self, thread_id: u64, frames: Vec<dap_types::StackFrame>) -> (done:
        Result<(), UnknownThread>)
        ensures
            entry_updated(
                old(self)@,
                final(self)@,
                thread_id,
                ThreadStateView { stack_frames: frames@, ..old(self)@[thread_id] },
                done,
            ),
    {
        broadcast use vstd::std_specs::hash::group_hash_axioms;

        match self.states.remove(&thread_id) {
            Some(mut state) => {
                state.stack_frames = frames;
                self.states.insert(thread_id, state);
                assert(self@ =~= old(self)@.insert(
                    thread_id,
                    ThreadStateView { stack_frames: frames@, ..old(self)@[thread_id] },
                ));
                Ok(())
            },
            None => {
                assert(self@ =~= old(self)@);
                Err(UnknownThread { thread_id })
            },
        }
    }

    /// Names the stack frame that a known thread is looked at in, and leaves
    /// the rest of its entry as it was.
    pub fn set_current_stack_frame(&mut self, thread_id: u64, frame_id: Option<u64>) -> (done: Result<
        (),
        UnknownThread,
    >)
        ensures
            entry_updated(
                old(self)@,
                final(self)@,
                thread_id,
                ThreadStateView { current_stack_frame_id: frame_id, ..old(self)@[thread_id] },
                done,
            ),
    {
        broadcast use vstd::std_specs::hash::group_hash_axioms;

        match self.states.remove(&thread_id) {
            Some(mut state) => {
                state.current_stack_frame_id = frame_id;
                self.states.insert(thread_id, state);
                assert(self@ =~= old(self)@.insert(
                    thread_id,
                    ThreadStateView { current_stack_frame_id: frame_id, ..old(self)@[thread_id] },
                ));
                Ok(())
            },
            None => {
                assert(self@ =~= old(self)@);
                Err(UnknownThread { thread_id })
            },
        }
    }

    /// Caches the scopes of one stack frame of a known thread, in place of
    /// what was cached for that frame, and leaves the rest of its entry as it
    /// was.
    pub fn set_scopes(&mut self, thread_id: u64, frame_id: u64, scopes: Vec<dap_types::Scope>) -> (done:
        Result<(), UnknownThread>)
        ensures
            entry_updated(
                old(self)@,
                final(self)@,
                thread_id,
                ThreadStateView {
                    scopes: old(self)@[thread_id].scopes.insert(frame_id, scopes@),
                    ..old(self)@[thread_id]
                },
                done,
            ),
    {
        broadcast use vstd::std_specs::hash::group_hash_axioms;

        match self.states.remove(&thread_id) {
            Some(mut state) => {
                let ghost before = state@;
                state.scopes.insert(frame_id, scopes);
                assert(state@.scopes =~= before.scopes.insert(frame_id, scopes@));
                self.states.insert(thread_id, state);
                assert(self@ =~= old(self)@.insert(
                    thread_id,
                    ThreadStateView {
                        scopes: old(self)@[thread_id].scopes.insert(frame_id, scopes@),
                        ..old(self)@[thread_id]
                    },
                ));
                Ok(())
            },
            None => {
                assert(self@ =~= old(self)@);
                Err(UnknownThread { thread_id })
            },
        }
    }

    /// Caches the variables under one reference of a known thread, in place
    /// of what was cached under that reference, and leaves the rest of its
    /// entry as it was.
    pub fn set_variables(
        &mut self,
        thread_id: u64,
        reference: u64,
        variables: Vec<dap_types::Variable>,
    ) -> (done: Result<(), UnknownThread>)
        ensures
            entry_updated(
                old(self)@,
                final(self)@,
                thread_id,
                ThreadStateView {
                    variables: old(self)@[thread_id].variables.insert(reference, variables@),
                    ..old(self)@[thread_id]
                },
                done,
            ),
    {
        broadcast use vstd::std_specs::hash::group_hash_axioms;

        match self.states.remove(&thread_id) {
            Some(mut state) => {
                let ghost before = state@;
                state.variables.insert(reference, variables);
                assert(state@.variables =~= before.variables.insert(reference, variables@));
                self.states.insert(thread_id, state);
                assert(self@ =~= old(self)@.insert(
                    thread_id,
                    ThreadStateView {
                        variables: old(self)@[thread_id].variables.insert(reference, variables@),
                        ..old(self)@[thread_id]
                    },
                ));
                Ok(())
            },
            None => {
                assert(self@ =~= old(self)@);
                Err(UnknownThread { thread_id })
            },
        }
    }
}

} // verus!
