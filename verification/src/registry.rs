//! Extension registry and module composer.
//!
//! The registry is the compile-time-fixed, ordered list of feature
//! extension modules. The composer folds that list into a single startup
//! descriptor (the builder), registering each module in list order.
//! Registration order is kept deterministic for reproducible builds, but
//! correctness does not depend on it: see
//! [`lemma_compose_order_independent`].

use vstd::prelude::*;
use vstd::seq_lib::lemma_multiset_commutative;

verus! {

/// Stable identifier of one feature extension module.
///
/// Each module is a self-contained capability unit; the shell knows it
/// only through its uniform registration entry point.
#[derive(Clone, Copy, PartialEq, Eq, Structural, Debug)]
pub enum FeatureModule {
    Auth,
    Cache,
    Friends,
    Import,
    Jre,
    Logs,
    Metadata,
    MinecraftSkins,
    ModPlugin,
    MrAuth,
    Pack,
    Process,
    Profile,
    ProfileCreate,
    Settings,
    Tags,
    Utils,
    Worlds,
}

/// A built-in UI-invokable command attached to the startup descriptor
/// during composition.
#[derive(Clone, Copy, PartialEq, Eq, Structural, Debug)]
pub enum Command {
    InitializeState,
    ShowWindow,
}

/// The startup descriptor accumulator threaded through registration.
///
/// It is exclusively owned by the bootstrap sequence: every registration
/// step consumes the builder and returns the extended one, until the
/// finished descriptor is handed to the host runtime's run loop.
pub struct Builder {
    /// Feature extension modules registered so far, in registration order.
    pub plugins: Vec<FeatureModule>,
    /// Built-in commands registered so far, in registration order.
    pub commands: Vec<Command>,
    /// Whether the listener that reacts to a second process launch has
    /// been installed. It must be installed during composition, before a
    /// second instance can plausibly start.
    pub single_instance_listener: bool,
    /// Whether window geometry is persisted across runs.
    pub window_state_persistence: bool,
    /// Whether previously granted sandbox scopes are restored on startup.
    pub persisted_scope: bool,
}

/// The fixed registry: every feature extension module, in its canonical
/// registration order.
pub open spec fn registry() -> Seq<FeatureModule> {
    seq![
        FeatureModule::Auth,
        FeatureModule::Cache,
        FeatureModule::Friends,
        FeatureModule::Import,
        FeatureModule::Jre,
        FeatureModule::Logs,
        FeatureModule::Metadata,
        FeatureModule::MinecraftSkins,
        FeatureModule::ModPlugin,
        FeatureModule::MrAuth,
        FeatureModule::Pack,
        FeatureModule::Process,
        FeatureModule::Profile,
        FeatureModule::ProfileCreate,
        FeatureModule::Settings,
        FeatureModule::Tags,
        FeatureModule::Utils,
        FeatureModule::Worlds,
    ]
}

impl Builder {
    /// A fresh descriptor: nothing registered, no listener installed.
    pub fn new() -> (b: Builder)
        ensures
            b.plugins@ == Seq::<FeatureModule>::empty(),
            b.commands@ == Seq::<Command>::empty(),
            !b.single_instance_listener,
            !b.window_state_persistence,
            !b.persisted_scope,
    {
        Builder {
            plugins: Vec::new(),
            commands: Vec::new(),
            single_instance_listener: false,
            window_state_persistence: false,
            persisted_scope: false,
        }
    }

    /// Register one feature extension module.
    pub fn plugin(self, module: FeatureModule) -> (b: Builder)
        ensures
            b.plugins@ == self.plugins@.push(module),
            b.commands@ == self.commands@,
            b.single_instance_listener == self.single_instance_listener,
            b.window_state_persistence == self.window_state_persistence,
            b.persisted_scope == self.persisted_scope,
    {
        let mut b = self;
        b.plugins.push(module);
        b
    }

    /// Register one built-in command.
    pub fn command(self, command: Command) -> (b: Builder)
        ensures
            b.commands@ == self.commands@.push(command),
            b.plugins@ == self.plugins@,
            b.single_instance_listener == self.single_instance_listener,
            b.window_state_persistence == self.window_state_persistence,
            b.persisted_scope == self.persisted_scope,
    {
        let mut b = self;
        b.commands.push(command);
        b
    }

    /// Install the listener that handles a later secondary launch.
    pub fn with_single_instance_listener(self) -> (b: Builder)
        ensures
            b.single_instance_listener,
            b.plugins@ == self.plugins@,
            b.commands@ == self.commands@,
            b.window_state_persistence == self.window_state_persistence,
            b.persisted_scope == self.persisted_scope,
    {
        let mut b = self;
        b.single_instance_listener = true;
        b
    }

    /// Enable persistence of window geometry across runs.
    pub fn with_window_state_persistence(self) -> (b: Builder)
        ensures
            b.window_state_persistence,
            b.plugins@ == self.plugins@,
            b.commands@ == self.commands@,
            b.single_instance_listener == self.single_instance_listener,
            b.persisted_scope == self.persisted_scope,
    {
        let mut b = self;
        b.window_state_persistence = true;
        b
    }

    /// Enable restoration of previously granted sandbox scopes.
    pub fn with_persisted_scope(self) -> (b: Builder)
        ensures
            b.persisted_scope,
            b.plugins@ == self.plugins@,
            b.commands@ == self.commands@,
            b.single_instance_listener == self.single_instance_listener,
            b.window_state_persistence == self.window_state_persistence,
    {
        let mut b = self;
        b.persisted_scope = true;
        b
    }
}

/// Register every module of the fixed registry, in registry order.
pub fn init_all(builder: Builder) -> (b: Builder)
    ensures
        b.plugins@ == builder.plugins@ + registry(),
        b.commands@ == builder.commands@,
        b.single_instance_listener == builder.single_instance_listener,
        b.window_state_persistence == builder.window_state_persistence,
        b.persisted_scope == builder.persisted_scope,
{
    let b = builder
        .plugin(FeatureModule::Auth)
        .plugin(FeatureModule::Cache)
        .plugin(FeatureModule::Friends)
        .plugin(FeatureModule::Import)
        .plugin(FeatureModule::Jre)
        .plugin(FeatureModule::Logs)
        .plugin(FeatureModule::Metadata)
        .plugin(FeatureModule::MinecraftSkins)
        .plugin(FeatureModule::ModPlugin)
        .plugin(FeatureModule::MrAuth)
        .plugin(FeatureModule::Pack)
        .plugin(FeatureModule::Process)
        .plugin(FeatureModule::Profile)
        .plugin(FeatureModule::ProfileCreate)
        .plugin(FeatureModule::Settings)
        .plugin(FeatureModule::Tags)
        .plugin(FeatureModule::Utils)
        .plugin(FeatureModule::Worlds);
    proof {
        assert(b.plugins@ =~= builder.plugins@ + registry());
    }
    b
}

/// Fold an arbitrary ordering of extension units into the descriptor.
///
/// Composition is total: every unit of the registry registers cleanly, so
/// there is no partial-registration state to expose. A unit that could not
/// register would abort the whole fold.
pub fn compose(builder: Builder, units: &Vec<FeatureModule>) -> (b: Builder)
    ensures
        b.plugins@ == builder.plugins@ + units@,
        b.commands@ == builder.commands@,
        b.single_instance_listener == builder.single_instance_listener,
        b.window_state_persistence == builder.window_state_persistence,
        b.persisted_scope == builder.persisted_scope,
{
    let mut b = builder;
    let ghost initial = b;
    let mut i: usize = 0;
    while i < units.len()
        invariant
            i <= units@.len(),
            b.plugins@ == initial.plugins@ + units@.subrange(0, i as int),
            b.commands@ == initial.commands@,
            b.single_instance_listener == initial.single_instance_listener,
            b.window_state_persistence == initial.window_state_persistence,
            b.persisted_scope == initial.persisted_scope,
        decreases units@.len() - i,
    {
        b = b.plugin(units[i]);
        proof {
            assert(units@.subrange(0, i as int + 1)
                =~= units@.subrange(0, i as int).push(units@[i as int]));
        }
        i = i + 1;
    }
    proof {
        assert(units@.subrange(0, units@.len() as int) =~= units@);
    }
    b
}

/// The registry as an executable list, for callers that compose it in an
/// order of their own.
pub fn registry_units() -> (units: Vec<FeatureModule>)
    ensures
        units@ == registry(),
{
    let mut units: Vec<FeatureModule> = Vec::new();
    units.push(FeatureModule::Auth);
    units.push(FeatureModule::Cache);
    units.push(FeatureModule::Friends);
    units.push(FeatureModule::Import);
    units.push(FeatureModule::Jre);
    units.push(FeatureModule::Logs);
    units.push(FeatureModule::Metadata);
    units.push(FeatureModule::MinecraftSkins);
    units.push(FeatureModule::ModPlugin);
    units.push(FeatureModule::MrAuth);
    units.push(FeatureModule::Pack);
    units.push(FeatureModule::Process);
    units.push(FeatureModule::Profile);
    units.push(FeatureModule::ProfileCreate);
    units.push(FeatureModule::Settings);
    units.push(FeatureModule::Tags);
    units.push(FeatureModule::Utils);
    units.push(FeatureModule::Worlds);
    proof {
        assert(units@ =~= registry());
    }
    units
}

/// Compose the whole shell: install the single-instance listener, enable
/// window-state persistence and scope restoration, attach the built-in
/// commands, and register every feature extension module.
pub fn compose_shell(builder: Builder) -> (b: Builder)
    ensures
        b.plugins@ == builder.plugins@ + registry(),
        b.commands@ == builder.commands@ + seq![Command::InitializeState, Command::ShowWindow],
        b.single_instance_listener,
        b.window_state_persistence,
        b.persisted_scope,
{
    let b = builder
        .with_single_instance_listener()
        .with_window_state_persistence()
        .with_persisted_scope()
        .command(Command::InitializeState)
        .command(Command::ShowWindow);
    proof {
        assert(b.commands@ =~= builder.commands@
            + seq![Command::InitializeState, Command::ShowWindow]);
    }
    init_all(b)
}

/// Law: composition is order-independent. Folding the same extension
/// units over the same descriptor in any two permutations of registration
/// order completes (the fold is total) and registers the same collection
/// of modules.
pub proof fn lemma_compose_order_independent(
    base: Seq<FeatureModule>,
    order_a: Seq<FeatureModule>,
    order_b: Seq<FeatureModule>,
)
    requires
        order_a.to_multiset() == order_b.to_multiset(),
    ensures
        (base + order_a).to_multiset() == (base + order_b).to_multiset(),
{
    lemma_multiset_commutative(base, order_a);
    lemma_multiset_commutative(base, order_b);
}

} // verus!
