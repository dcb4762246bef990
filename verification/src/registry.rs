//! The single slot that holds the tracked browser process.

use vstd::prelude::*;

verus! {

/// Configuration and process information of the supervised browser.
///
/// The slot holds at most one process id. Callers that share the state
/// between tasks keep it behind one lock and call these operations while
/// holding it; each operation is constant time.
#[derive(Debug)]
pub struct ChromeState {
    /// The profile directory handed to the browser.
    pub data_dir: String,
    chrome_pid: Option<u32>,
}

impl ChromeState {
    /// The process id that the slot holds, if any.
    pub closed spec fn current_pid(&self) -> Option<u32> {
        self.chrome_pid
    }

    /// The profile directory, as text.
    pub closed spec fn profile_dir(&self) -> Seq<char> {
        self.data_dir@
    }

    /// This state with `pid` in the slot.
    pub closed spec fn after_set(self, pid: u32) -> ChromeState {
        ChromeState { data_dir: self.data_dir, chrome_pid: Some(pid) }
    }

    /// This state with an empty slot.
    pub closed spec fn after_clear(self) -> ChromeState {
        ChromeState { data_dir: self.data_dir, chrome_pid: None }
    }

    /// A state for the given profile directory, with nothing tracked.
    pub fn new(data_dir: String) -> (state: ChromeState)
        ensures
            state.profile_dir() == data_dir@,
            state.current_pid() == None::<u32>,
    {
        ChromeState { data_dir, chrome_pid: None }
    }

    /// The profile directory.
    pub fn profile_dir_text(&self) -> (dir: &str)
        ensures
            dir@ == self.profile_dir(),
    {
        self.data_dir.as_str()
    }

    /// Tracks `pid`, replacing whatever was tracked before.
    pub fn set(&mut self, pid: u32)
        ensures
            *final(self) == old(self).after_set(pid),
            final(self).current_pid() == Some(pid),
            final(self).profile_dir() == old(self).profile_dir(),
    {
        self.chrome_pid = Some(pid);
    }

    /// The tracked process id: the one given to the last `set` since the
    /// last `clear`.
    pub fn get(&self) -> (pid: Option<u32>)
        ensures
            pid == self.current_pid(),
    {
        self.chrome_pid
    }

    /// Empties the slot.
    pub fn clear(&mut self)
        ensures
            *final(self) == old(self).after_clear(),
            final(self).current_pid() == None::<u32>,
            final(self).profile_dir() == old(self).profile_dir(),
    {
        self.chrome_pid = None;
    }
}

/// A read sees the most recent write: after `set` the slot holds the id that
/// was set, whatever it held before, and after `clear` it holds nothing.
/// Neither touches the profile directory.
pub proof fn lemma_read_sees_last_write(state: ChromeState, pid: u32)
    ensures
        state.after_set(pid).current_pid() == Some(pid),
        state.after_set(pid).profile_dir() == state.profile_dir(),
        state.after_clear().current_pid() == None::<u32>,
        state.after_clear().profile_dir() == state.profile_dir(),
        state.after_clear().after_set(pid) == state.after_set(pid),
{
}

/// Setting twice keeps the second id only: the slot never holds two.
pub proof fn lemma_set_replaces(state: ChromeState, first: u32, second: u32)
    ensures
        state.after_set(first).after_set(second) == state.after_set(second),
{
}

} // verus!
