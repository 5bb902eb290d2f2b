//! Window lifecycle controller.
//!
//! The main window is created hidden at build time and stays hidden until
//! the UI layer, once ready to paint, invokes `show_window`. The
//! controller looks the window up by its well-known label, asks the host
//! runtime to make it visible, then asks for input focus. Both host
//! requests can fail; the caller reports each outcome and this module,
//! verified for every outcome, decides what the command returns.

use vstd::prelude::*;

verus! {

/// One native window owned by the host runtime.
pub struct ShellWindow {
    pub label: String,
    pub visible: bool,
    pub focused: bool,
}

/// A named event delivered to the UI layer.
pub enum UiEvent {
    /// A later process launch forwarded its invocation arguments.
    SingleInstance { argv: Vec<String> },
}

/// The host runtime's window table and the events delivered to the UI
/// layer so far.
pub struct WindowHost {
    pub windows: Vec<ShellWindow>,
    pub events: Vec<UiEvent>,
}

/// Typed failure of a window-lifecycle command.
#[derive(Clone, Copy, PartialEq, Eq, Structural, Debug)]
pub enum WindowError {
    /// No window carries the well-known main label: a fatal invariant
    /// violation, since the window is created declaratively at build
    /// time. Still a command-level failure: the process stays alive.
    WindowNotFound,
    /// The host runtime refused to make the window visible.
    ShowFailed,
    /// The host runtime refused to give the window input focus.
    FocusFailed,
}

/// The well-known label of the main window.
pub open spec fn main_label() -> Seq<char> {
    "main"@
}

impl WindowHost {
    /// Validity of the window table: labels are unique, so a label names
    /// at most one window.
    pub open spec fn wf(self) -> bool {
        forall|i: int, j: int|
            0 <= i < j < self.windows@.len() ==> self.windows@[i].label@ != self.windows@[j].label@
    }

    /// Whether some window carries `label`.
    pub open spec fn has_window(self, label: Seq<char>) -> bool {
        exists|i: int| 0 <= i < self.windows@.len() && self.windows@[i].label@ == label
    }

    /// The index of the window carrying `label` (meaningful only when
    /// `has_window(label)` holds; unique by `wf`).
    pub open spec fn window_index(self, label: Seq<char>) -> int {
        choose|i: int| 0 <= i < self.windows@.len() && self.windows@[i].label@ == label
    }

    /// A host with no windows and no delivered events.
    pub fn new() -> (host: WindowHost)
        ensures
            host.wf(),
            host.windows@ == Seq::<ShellWindow>::empty(),
            host.events@ == Seq::<UiEvent>::empty(),
    {
        WindowHost { windows: Vec::new(), events: Vec::new() }
    }

    /// Find the window carrying `label`.
    fn find_window(&self, label: &str) -> (r: Option<usize>)
        ensures
            match r {
                Some(i) => i < self.windows@.len() && self.windows@[i as int].label@ == label@,
                None => !self.has_window(label@),
            },
    {
        let target: String = label.to_owned();
        let mut i: usize = 0;
        while i < self.windows.len()
            invariant
                i <= self.windows@.len(),
                target@ == label@,
                forall|k: int| 0 <= k < i ==> self.windows@[k].label@ != label@,
            decreases self.windows@.len() - i,
        {
            if self.windows[i].label.eq(&target) {
                return Some(i);
            }
            i = i + 1;
        }
        None
    }

    /// Find the main window; in a well-formed host its index is unique.
    pub(crate) fn find_main(&self) -> (r: Option<usize>)
        requires
            self.wf(),
        ensures
            match r {
                Some(i) => self.has_window(main_label()) && i < self.windows@.len()
                    && self.windows@[i as int].label@ == main_label() && i as int
                    == self.window_index(main_label()),
                None => !self.has_window(main_label()),
            },
    {
        let r = self.find_window("main");
        proof {
            if let Some(i) = r {
                lemma_unique_label_index(*self, main_label(), i as int);
            }
        }
        r
    }
}

/// Make the main window visible, then give it input focus.
///
/// `show_ok` and `focus_ok` report whether the host runtime accepted the
/// respective request (each consulted only when the request is made). A
/// missing main window or a refused request surfaces as a typed error for
/// the caller to escalate; nothing here terminates the process.
pub fn show_window(host: &mut WindowHost, show_ok: bool, focus_ok: bool) -> (r: Result<
    (),
    WindowError,
>)
    requires
        old(host).wf(),
    ensures
        final(host).wf(),
        final(host).events@ == old(host).events@,
        final(host).windows@.len() == old(host).windows@.len(),
        !old(host).has_window(main_label()) ==> r == Err::<(), WindowError>(
            WindowError::WindowNotFound,
        ) && *final(host) == *old(host),
        old(host).has_window(main_label()) ==> ({
            let i = old(host).window_index(main_label());
            let w = old(host).windows@[i];
            &&& forall|k: int|
                0 <= k < old(host).windows@.len() && k != i ==> final(host).windows@[k]
                    == old(host).windows@[k]
            &&& final(host).windows@[i].label@ == w.label@
            &&& !show_ok ==> r == Err::<(), WindowError>(WindowError::ShowFailed) && *final(host)
                == *old(host)
            &&& show_ok ==> final(host).windows@[i].visible
            &&& (show_ok && !focus_ok) ==> r == Err::<(), WindowError>(WindowError::FocusFailed)
                && final(host).windows@[i].focused == w.focused
            &&& (show_ok && focus_ok) ==> r == Ok::<(), WindowError>(())
                && final(host).windows@[i].focused
        }),
{
    let found = host.find_main();
    match found {
        None => Err(WindowError::WindowNotFound),
        Some(i) => {
            if !show_ok {
                return Err(WindowError::ShowFailed);
            }
            let mut w = host.windows.remove(i);
            w.visible = true;
            let focused = focus_ok;
            if focus_ok {
                w.focused = true;
            }
            let ghost shown = w;
            host.windows.insert(i, w);
            proof {
                assert(host.windows@ =~= old(host).windows@.update(i as int, shown));
            }
            if focused {
                Ok(())
            } else {
                Err(WindowError::FocusFailed)
            }
        },
    }
}

/// In a well-formed host, an index whose window carries `label` is the
/// index that `window_index` names.
proof fn lemma_unique_label_index(host: WindowHost, label: Seq<char>, i: int)
    requires
        host.wf(),
        0 <= i < host.windows@.len(),
        host.windows@[i].label@ == label,
    ensures
        host.has_window(label),
        host.window_index(label) == i,
{
    assert(host.has_window(label));
    let j = host.window_index(label);
    if j != i {
        if i < j {
            assert(host.windows@[i].label@ != host.windows@[j].label@);
        } else {
            assert(host.windows@[j].label@ != host.windows@[i].label@);
        }
    }
}

} // verus!
