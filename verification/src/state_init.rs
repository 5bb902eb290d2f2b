//! Global state initializer.
//!
//! The UI layer invokes `initialize_state` exactly once after it has
//! mounted. The procedure has three strictly ordered steps: bind the
//! event-notification subsystem to the window, create the application
//! state singleton, then derive the cache root and its nested icon cache
//! from the new singleton and grant the UI asset sandbox read access to
//! both. Any step failing aborts the sequence with a typed, recoverable
//! error; a retry resumes after the last completed step, so the event
//! subsystem is never bound twice.
//!
//! The slow, engine-owned work (binding the subsystem, building the
//! singleton) happens outside this module; the caller reports each
//! outcome, and this module makes every decision and is verified for
//! every possible outcome.

use vstd::prelude::*;

verus! {

/// A sandbox permission entry: the UI asset loader may read `path`,
/// recursively when `recursive` is set.
pub struct DirectoryGrant {
    pub path: String,
    pub recursive: bool,
}

/// Mathematical value of a [`DirectoryGrant`].
#[verifier::ext_equal]
pub struct GrantView {
    pub path: Seq<char>,
    pub recursive: bool,
}

impl View for DirectoryGrant {
    type V = GrantView;

    open spec fn view(&self) -> GrantView {
        GrantView { path: self.path@, recursive: self.recursive }
    }
}

/// Typed, recoverable failure of one `initialize_state` attempt.
#[derive(Clone, Copy, PartialEq, Eq, Structural, Debug)]
pub enum InitError {
    /// The application state singleton already exists; it is created at
    /// most once per process lifetime.
    AlreadyInitialized,
    /// Binding the event-notification subsystem to the window failed.
    EventSubsystem,
    /// Building the application state singleton failed.
    StateSingleton,
}

/// Per-process initialization state of the shell.
///
/// `event_bindings` counts how many times the event-notification
/// subsystem has been bound to the window; well-formed sessions bind it
/// at most once.
pub struct Session {
    pub events_ready: bool,
    pub event_bindings: u64,
    pub cache_root: Option<String>,
    pub grants: Vec<DirectoryGrant>,
}

/// Mathematical value of a [`Session`].
#[verifier::ext_equal]
pub struct SessionView {
    pub events_ready: bool,
    pub event_bindings: nat,
    pub cache_root: Option<Seq<char>>,
    pub grants: Seq<GrantView>,
}

impl View for Session {
    type V = SessionView;

    open spec fn view(&self) -> SessionView {
        SessionView {
            events_ready: self.events_ready,
            event_bindings: self.event_bindings as nat,
            cache_root: match self.cache_root {
                Some(root) => Some(root@),
                None => None,
            },
            grants: self.grants@.map_values(|g: DirectoryGrant| g@),
        }
    }
}

impl SessionView {
    /// Validity of a session: the event subsystem is bound exactly once
    /// when ready and never before, and the singleton can only exist once
    /// the subsystem is ready.
    pub open spec fn wf(self) -> bool {
        &&& self.event_bindings == if self.events_ready {
            1nat
        } else {
            0nat
        }
        &&& self.cache_root is Some ==> self.events_ready
    }

    /// Whether the application state singleton has been created.
    pub open spec fn initialized(self) -> bool {
        self.cache_root is Some
    }
}

/// Path of the nested icon cache, relative to the cache root.
pub open spec fn spec_icons_suffix() -> Seq<char> {
    "/icons"@
}

/// The two mandatory directory grants derived from a cache root: the root
/// itself and its nested icon cache, both recursive.
pub open spec fn grant_pair(root: Seq<char>) -> Seq<GrantView> {
    seq![
        GrantView { path: root, recursive: true },
        GrantView { path: root + spec_icons_suffix(), recursive: true },
    ]
}

/// Outcome of one `initialize_state` attempt: the session afterwards and
/// the value returned to the UI layer.
#[verifier::ext_equal]
pub struct InitStep {
    pub session: SessionView,
    pub result: Result<(), InitError>,
}

/// The decision taken by one `initialize_state` attempt, given the
/// session so far, whether binding the event subsystem succeeded (asked
/// only when it is not yet bound), and the cache root of the new
/// singleton, or `None` when building the singleton failed.
pub open spec fn init_step(
    s: SessionView,
    event_bind_ok: bool,
    singleton: Option<Seq<char>>,
) -> InitStep {
    if s.initialized() {
        InitStep { session: s, result: Err(InitError::AlreadyInitialized) }
    } else if !s.events_ready && !event_bind_ok {
        InitStep { session: s, result: Err(InitError::EventSubsystem) }
    } else {
        let bound = SessionView {
            events_ready: true,
            event_bindings: if s.events_ready {
                s.event_bindings
            } else {
                s.event_bindings + 1
            },
            ..s
        };
        match singleton {
            None => InitStep { session: bound, result: Err(InitError::StateSingleton) },
            Some(root) => InitStep {
                session: SessionView {
                    cache_root: Some(root),
                    grants: bound.grants + grant_pair(root),
                    ..bound
                },
                result: Ok(()),
            },
        }
    }
}

impl Session {
    /// A fresh session: nothing bound, no singleton, no grants.
    pub fn new() -> (s: Session)
        ensures
            s@.wf(),
            !s@.events_ready,
            s@.event_bindings == 0,
            s@.cache_root is None,
            s@.grants == Seq::<GrantView>::empty(),
    {
        let s = Session {
            events_ready: false,
            event_bindings: 0,
            cache_root: None,
            grants: Vec::new(),
        };
        proof {
            assert(s@.grants =~= Seq::<GrantView>::empty());
        }
        s
    }

    /// One attempt of the two-phase global state initialization.
    ///
    /// `event_bind_ok` reports whether binding the event-notification
    /// subsystem to the window succeeded (consulted only when the
    /// subsystem is not yet bound); `singleton` carries the cache root of
    /// the newly created application state singleton, or `None` when
    /// creating it failed. On success the two mandatory directory grants
    /// are recorded for the caller to register with the asset sandbox.
    pub fn initialize_state(
        &mut self,
        event_bind_ok: bool,
        singleton: Option<String>,
    ) -> (r: Result<(), InitError>)
        requires
            old(self)@.wf(),
        ensures
            final(self)@.wf(),
            final(self)@ == init_step(old(self)@, event_bind_ok, opt_root_view(singleton)).session,
            r == init_step(old(self)@, event_bind_ok, opt_root_view(singleton)).result,
            old(self)@.initialized() ==> r == Err::<(), InitError>(InitError::AlreadyInitialized)
                && *final(self) == *old(self),
    {
        let ghost pre = self@;
        let ghost target = init_step(pre, event_bind_ok, opt_root_view(singleton));
        if self.cache_root.is_some() {
            return Err(InitError::AlreadyInitialized);
        }
        if !self.events_ready {
            if !event_bind_ok {
                return Err(InitError::EventSubsystem);
            }
            self.events_ready = true;
            self.event_bindings = self.event_bindings + 1;
        }
        match singleton {
            None => {
                proof {
                    assert(self@ =~= target.session);
                }
                Err(InitError::StateSingleton)
            },
            Some(root) => {
                let icons = root.clone().concat("/icons");
                self.grants.push(DirectoryGrant { path: root.clone(), recursive: true });
                self.grants.push(DirectoryGrant { path: icons, recursive: true });
                self.cache_root = Some(root);
                proof {
                    assert(self@.grants =~= target.session.grants);
                    assert(self@ =~= target.session);
                }
                Ok(())
            },
        }
    }

    /// The directory grants registered so far, for the caller to hand to
    /// the asset sandbox.
    pub fn grants(&self) -> (grants: &Vec<DirectoryGrant>)
        ensures
            grants@ == self.grants@,
    {
        &self.grants
    }

    /// Whether the application state singleton has been created.
    pub fn is_initialized(&self) -> (r: bool)
        ensures
            r == self@.initialized(),
    {
        self.cache_root.is_some()
    }
}

/// Mathematical value of the reported singleton outcome.
pub open spec fn opt_root_view(singleton: Option<String>) -> Option<Seq<char>> {
    match singleton {
        Some(root) => Some(root@),
        None => None,
    }
}

/// Law: the singleton is created at most once per process lifetime. After
/// an attempt that succeeded, every further attempt, whatever its
/// reported outcomes, fails with `AlreadyInitialized` and leaves the
/// session exactly as it was.
pub proof fn lemma_second_initialization_rejected(
    s: SessionView,
    bind_a: bool,
    singleton_a: Option<Seq<char>>,
    bind_b: bool,
    singleton_b: Option<Seq<char>>,
)
    requires
        init_step(s, bind_a, singleton_a).result is Ok,
    ensures
        ({
            let after = init_step(s, bind_a, singleton_a).session;
            &&& init_step(after, bind_b, singleton_b).result == Err::<(), InitError>(
                InitError::AlreadyInitialized,
            )
            &&& init_step(after, bind_b, singleton_b).session == after
        }),
{
}

/// Law: a retry after a partial failure is safe. When the event subsystem
/// came up but building the singleton failed, the failed attempt reports
/// `StateSingleton` and keeps the subsystem bound; a later attempt that
/// can build the singleton succeeds without binding the event subsystem a
/// second time.
pub proof fn lemma_retry_after_partial_failure(
    s: SessionView,
    bind_retry: bool,
    root: Seq<char>,
)
    requires
        s.wf(),
        !s.initialized(),
    ensures
        ({
            let failed = init_step(s, true, None);
            let retried = init_step(failed.session, bind_retry, Some(root));
            &&& failed.result == Err::<(), InitError>(InitError::StateSingleton)
            &&& failed.session.events_ready
            &&& failed.session.event_bindings == 1
            &&& !failed.session.initialized()
            &&& retried.result is Ok
            &&& retried.session.cache_root == Some(root)
            &&& retried.session.event_bindings == 1
        }),
{
}

/// Law: the grants registered by a successful initialization are exactly
/// the cache root of the new singleton and its nested icon cache, both
/// recursive.
pub proof fn lemma_grants_exactly_cache_and_icons(
    s: SessionView,
    event_bind_ok: bool,
    root: Seq<char>,
)
    requires
        s.grants == Seq::<GrantView>::empty(),
        init_step(s, event_bind_ok, Some(root)).result is Ok,
    ensures
        ({
            let grants = init_step(s, event_bind_ok, Some(root)).session.grants;
            &&& grants.len() == 2
            &&& grants[0].path == root
            &&& grants[0].recursive
            &&& grants[1].path == root + spec_icons_suffix()
            &&& grants[1].recursive
        }),
{
    assert(s.grants + grant_pair(root) =~= grant_pair(root));
}

} // verus!
