//! The window that had focus before the translator took it: what is known of
//! a window, and the single slot that remembers the last foreign one.

use crate::text::{decimal, format_u64};
use vstd::prelude::*;
use vstd::string::StringExecFns;

verus! {

/// What the operating system reports of one window.
#[derive(Debug)]
pub struct WindowHandle {
    pub title: String,
    pub app_name: String,
    /// The display system's identifier of the window, as text.
    pub window_id: String,
    /// The process that owns the window.
    pub process_id: u64,
}

impl Clone for WindowHandle {
    fn clone(&self) -> (res: Self)
        ensures
            res == *self,
    {
        WindowHandle {
            title: self.title.clone(),
            app_name: self.app_name.clone(),
            window_id: self.window_id.clone(),
            process_id: self.process_id,
        }
    }
}

/// Whether `window` belongs to the process `own_pid`, the translator itself.
pub fn is_translator_process(window: &WindowHandle, own_pid: u64) -> (res: bool)
    ensures
        res == (window.process_id == own_pid),
{
    window.process_id == own_pid
}

/// The text of `describe_window`.
pub open spec fn window_description(window: WindowHandle) -> Seq<char> {
    "title='"@ + window.title@ + "', app='"@ + window.app_name@ + "', pid="@ + decimal(
        window.process_id as nat,
    ) + ", id="@ + window.window_id@
}

/// One line that names a window, for a log.
pub fn describe_window(window: &WindowHandle) -> (res: String)
    ensures
        res@ == window_description(*window),
{
    let mut out = String::from_str("title='");
    out.append(window.title.as_str());
    out.append("', app='");
    out.append(window.app_name.as_str());
    out.append("', pid=");
    out.append(format_u64(window.process_id).as_str());
    out.append(", id=");
    out.append(window.window_id.as_str());
    out
}

/// The slot that holds the last focused window that was not the translator's
/// own. It is made once, with the translator's process id, and never holds a
/// window of that process.
pub struct ActiveWindowTracker {
    own_pid: u64,
    previous: Option<WindowHandle>,
}

impl ActiveWindowTracker {
    #[verifier::type_invariant]
    spec fn excludes_self(&self) -> bool {
        self.previous matches Some(w) ==> w.process_id != self.own_pid
    }

    /// The process id of the translator.
    pub closed spec fn own_pid(&self) -> u64 {
        self.own_pid
    }

    /// The window that the slot holds.
    pub closed spec fn remembered(&self) -> Option<WindowHandle> {
        self.previous
    }

    /// An empty slot for the process `own_pid`.
    pub fn new(own_pid: u64) -> (res: Self)
        ensures
            res.own_pid() == own_pid,
            res.remembered() is None,
    {
        ActiveWindowTracker { own_pid, previous: None }
    }

    /// A copy of what the slot holds. It is never a window of the translator.
    pub fn snapshot(&self) -> (res: Option<WindowHandle>)
        ensures
            res == self.remembered(),
            res matches Some(w) ==> w.process_id != self.own_pid(),
    {
        proof {
            use_type_invariant(self);
        }
        match &self.previous {
            Some(w) => Some(w.clone()),
            None => None,
        }
    }

    /// Whether the slot holds a window.
    pub fn has_window(&self) -> (res: bool)
        ensures
            res == (self.remembered() is Some),
    {
        self.previous.is_some()
    }
}

/// What the slot holds after the focused window was queried with the outcome
/// `observed`: the observed window where the query succeeded and the window
/// is not the translator's own, else what it held before.
pub open spec fn slot_after(
    before: Option<WindowHandle>,
    own_pid: u64,
    observed: Result<WindowHandle, ()>,
) -> Option<WindowHandle> {
    match observed {
        Ok(w) => if w.process_id != own_pid {
            Some(w)
        } else {
            before
        },
        Err(_) => before,
    }
}

/// What the slot holds after the queries with the outcomes `observed`, one
/// after the other.
pub open spec fn slot_after_all(
    before: Option<WindowHandle>,
    own_pid: u64,
    observed: Seq<Result<WindowHandle, ()>>,
) -> Option<WindowHandle>
    decreases observed.len(),
{
    if observed.len() == 0 {
        before
    } else {
        slot_after(slot_after_all(before, own_pid, observed.drop_last()), own_pid, observed.last())
    }
}

/// The slot never comes to hold a window of the translator, and the last
/// write wins: after any number of queries the slot holds what it held at
/// first, or a window that was observed and is not the translator's own, and
/// a query that succeeds on a foreign window puts that window in the slot.
pub proof fn lemma_slot_holds_a_foreign_window(
    before: Option<WindowHandle>,
    own_pid: u64,
    observed: Seq<Result<WindowHandle, ()>>,
)
    ensures
        ({
            let after = slot_after_all(before, own_pid, observed);
            &&& after == before || exists|i: int|
                0 <= i < observed.len() && #[trigger] observed[i] == Ok::<WindowHandle, ()>(
                    after->Some_0,
                ) && after is Some && after->Some_0.process_id != own_pid
            &&& observed.len() > 0 && observed.last() is Ok && observed.last()->Ok_0.process_id
                != own_pid ==> after == Some(observed.last()->Ok_0)
            &&& observed.len() > 0 && observed.last() is Err ==> after == slot_after_all(
                before,
                own_pid,
                observed.drop_last(),
            )
        }),
    decreases observed.len(),
{
    if observed.len() > 0 {
        let earlier = observed.drop_last();
        lemma_slot_holds_a_foreign_window(before, own_pid, earlier);
        let middle = slot_after_all(before, own_pid, earlier);
        let after = slot_after_all(before, own_pid, observed);
        if after != before {
            if after == middle {
                let i = choose|i: int|
                    0 <= i < earlier.len() && #[trigger] earlier[i] == Ok::<WindowHandle, ()>(
                        middle->Some_0,
                    ) && middle is Some && middle->Some_0.process_id != own_pid;
                assert(observed[i] == earlier[i]);
            } else {
                assert(observed[observed.len() - 1] == observed.last());
            }
        }
    }
}

/// Stores the focused window that the operating system reported. A failed
/// query and a window of the translator itself leave the slot as it was.
pub fn remember_active_window(tracker: &mut ActiveWindowTracker, observed: Result<WindowHandle, ()>)
    ensures
        final(tracker).own_pid() == old(tracker).own_pid(),
        final(tracker).remembered() == slot_after(
            old(tracker).remembered(),
            old(tracker).own_pid(),
            observed,
        ),
        observed is Err ==> final(tracker).remembered() == old(tracker).remembered(),
        observed matches Ok(w) && w.process_id == old(tracker).own_pid()
            ==> final(tracker).remembered() == old(tracker).remembered(),
        final(tracker).remembered() matches Some(w) ==> w.process_id != final(tracker).own_pid(),
{
    proof {
        use_type_invariant(&*tracker);
    }
    match observed {
        Ok(window) => {
            if !is_translator_process(&window, tracker.own_pid) {
                tracker.previous = Some(window);
            }
        },
        Err(_) => {},
    }
}

/// As `remember_active_window`, and tells whether a window is held, before or
/// after the call.
pub fn remember_active_window_command(
    tracker: &mut ActiveWindowTracker,
    observed: Result<WindowHandle, ()>,
) -> (has_window: bool)
    ensures
        final(tracker).own_pid() == old(tracker).own_pid(),
        final(tracker).remembered() == slot_after(
            old(tracker).remembered(),
            old(tracker).own_pid(),
            observed,
        ),
        has_window == (final(tracker).remembered() is Some || old(tracker).remembered() is Some),
{
    let before = tracker.has_window();
    remember_active_window(tracker, observed);
    tracker.has_window() || before
}

/// The window to bring back to the foreground, or why there is none.
pub fn focus_previous_window(tracker: &ActiveWindowTracker) -> (res: Result<WindowHandle, String>)
    ensures
        match tracker.remembered() {
            Some(w) => res == Ok::<WindowHandle, String>(w),
            None => res is Err && res->Err_0@ == "no previous window recorded"@,
        },
{
    match tracker.snapshot() {
        Some(window) => Ok(window),
        None => Err(String::from_str("no previous window recorded")),
    }
}

} // verus!
