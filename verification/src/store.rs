//! The shared State Store: the one status record, behind one exclusive
//! lock covering the whole record. Writers replace exactly one field per
//! critical section; a reader copies all three fields in one critical
//! section, so a snapshot never mixes pre- and post-update values.
use vstd::prelude::*;
use vstd::rwlock::RwLock;

use crate::protocol::{apply_command, handle_line, spec_is_update, spec_parse, Command};
use crate::state::Input;

verus! {

/// The status record shared by every connection handler and the render
/// scheduler, protected by one lock.
pub struct StateStore {
    lock: RwLock<Input, spec_fn(Input) -> bool>,
}

impl StateStore {
    /// Any record value may be stored; the lock serves mutual exclusion
    /// alone.
    pub closed spec fn wf(&self) -> bool {
        forall|v: Input| self.lock.inv(v)
    }

    /// Create the store in its startup state.
    pub fn new() -> (s: StateStore)
        ensures
            s.wf(),
    {
        StateStore { lock: RwLock::new(Input::new(), Ghost(|v: Input| true)) }
    }

    /// Take one consistent snapshot: one acquisition, one copy of all three
    /// fields, one release. What the copy holds depends on the writers that
    /// ran before this acquisition, so no more can be promised of it; the
    /// consistency lies in the three fields coming from one critical
    /// section.
    pub fn snapshot(&self) -> Input {
        let handle = self.lock.acquire_read();
        let v = handle.borrow();
        let copy = Input {
            sync: v.sync,
            weather: v.weather.clone(),
            temperature: v.temperature.clone(),
        };
        handle.release_read();
        copy
    }

    /// Acquire the lock, apply one command to the record, release. Exactly
    /// one field changes for an update command, none for any other; returns
    /// whether a field was set.
    pub fn apply(&self, c: Command) -> (set: bool)
        requires
            self.wf(),
        ensures
            set == spec_is_update(c@),
    {
        let (mut v, handle) = self.lock.acquire_write();
        let set = apply_command(&mut v, c);
        handle.release_write(v);
        set
    }

    /// Acquire the lock, apply one raw protocol line, release: one
    /// connection handler's whole step. Returns `(keep_open, set)`, both
    /// functions of the line alone.
    pub fn apply_line(&self, line: &str) -> (r: (bool, bool))
        requires
            self.wf(),
        ensures
            r.0 == !(spec_parse(line@) is Disconnect),
            r.1 == spec_is_update(spec_parse(line@)),
    {
        let (mut v, handle) = self.lock.acquire_write();
        let r = handle_line(&mut v, line);
        handle.release_write(v);
        r
    }
}

} // verus!
