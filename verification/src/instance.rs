//! Single-instance coordinator.
//!
//! The first process to acquire the OS-level lock becomes the primary
//! instance and owns the visible window. Any later launch is secondary:
//! it forwards its invocation arguments to the primary and terminates
//! without running the rest of bootstrap, so a second visible window is
//! never created. On the primary, a listener installed during composition
//! reacts to each forwarded launch: it delivers the arguments to the UI
//! layer as a named event and brings the main window to the foreground,
//! un-hiding it if it was hidden.

use vstd::prelude::*;
use crate::window::{main_label, UiEvent, WindowError, WindowHost};

verus! {

/// The role this process plays in single-instance coordination.
#[derive(Clone, Copy, PartialEq, Eq, Structural, Debug)]
pub enum InstanceRole {
    /// Holds the lock and owns the visible window.
    Primary,
    /// A later launch; it must not run bootstrap.
    Secondary,
}

/// What a secondary launch does instead of bootstrapping.
pub struct SecondaryPlan {
    /// The invocation arguments to hand to the primary instance.
    pub forwarded_args: Vec<String>,
    /// Always false: a secondary instance never runs bootstrap, so it
    /// never creates a window.
    pub proceed_with_bootstrap: bool,
}

/// Decide the process's role from the outcome of the lock acquisition.
pub fn claim_instance(lock_acquired: bool) -> (role: InstanceRole)
    ensures
        role is Primary <==> lock_acquired,
{
    if lock_acquired {
        InstanceRole::Primary
    } else {
        InstanceRole::Secondary
    }
}

/// The whole plan of a secondary launch: forward the arguments, then
/// terminate without bootstrapping.
pub fn secondary_plan(argv: Vec<String>) -> (plan: SecondaryPlan)
    ensures
        plan.forwarded_args@ == argv@,
        !plan.proceed_with_bootstrap,
{
    SecondaryPlan { forwarded_args: argv, proceed_with_bootstrap: false }
}

/// The primary instance's reaction to a forwarded secondary launch:
/// deliver the forwarded arguments to the UI layer as a named event, give
/// the main window input focus, and make it visible if it was hidden. No
/// window is created or destroyed.
pub fn on_second_instance(host: &mut WindowHost, argv: Vec<String>) -> (r: Result<
    (),
    WindowError,
>)
    requires
        old(host).wf(),
    ensures
        final(host).wf(),
        final(host).windows@.len() == old(host).windows@.len(),
        !old(host).has_window(main_label()) ==> r == Err::<(), WindowError>(
            WindowError::WindowNotFound,
        ) && *final(host) == *old(host),
        old(host).has_window(main_label()) ==> ({
            let i = old(host).window_index(main_label());
            &&& r == Ok::<(), WindowError>(())
            &&& final(host).events@ == old(host).events@.push(
                UiEvent::SingleInstance { argv },
            )
            &&& forall|k: int|
                0 <= k < old(host).windows@.len() && k != i ==> final(host).windows@[k]
                    == old(host).windows@[k]
            &&& final(host).windows@[i].label@ == old(host).windows@[i].label@
            &&& final(host).windows@[i].visible
            &&& final(host).windows@[i].focused
        }),
{
    let found = host.find_main();
    match found {
        None => Err(WindowError::WindowNotFound),
        Some(i) => {
            host.events.push(UiEvent::SingleInstance { argv });
            let mut w = host.windows.remove(i);
            w.focused = true;
            w.visible = true;
            let ghost raised = w;
            host.windows.insert(i, w);
            proof {
                assert(host.windows@ =~= old(host).windows@.update(i as int, raised));
            }
            Ok(())
        },
    }
}

} // verus!
