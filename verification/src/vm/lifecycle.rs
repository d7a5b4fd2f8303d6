//! Spawning and destroying a VM, as decisions.
//!
//! A spawn takes its steps in a fixed order and either completes or is
//! aborted with the list of everything to release again. A handle exists
//! only for a spawn that completed. Teardown goes through every release
//! step, whatever fails on the way.

use crate::text::{owned, same_text};
use crate::vm::config::{vsock_path_of, ConfigError, VmConfig};
use crate::vm::firewall::{chain_name_of, isolation_verified, FirewallError, FirewallManager};
use crate::vm::jailer::{chroot_dir_of, limits_for, JailerConfig, JailerError, MIB};
use crate::vm::rootfs::record_in;
use crate::vm::seccomp::{effective_filter, filter_or_default};
use crate::vm::signature::{
    check_integrity, checksum_of, integrity_verdict, optional_bytes, optional_str,
    parse_signature_file, tree_accepted, tree_root_of, IntegrityError,
};
use crate::vm::verity::merkle_root_hex;
use vstd::prelude::*;

verus! {

/// The time within which a spawn is expected to complete, in milliseconds.
pub const SPAWN_BUDGET_MS: u64 = 200;

/// The time after which a spawn is given up, in milliseconds.
pub const SPAWN_TIMEOUT_MS: u64 = 2000;

/// The time that the hypervisor gets to shut down before it is killed, in
/// milliseconds.
pub const GRACEFUL_SHUTDOWN_MS: u64 = 5000;

/// The states in the life of a VM.
#[derive(Debug, Clone, Copy, PartialEq, Eq, Structural)]
pub enum VmState {
    Created,
    Spawning,
    Running,
    Draining,
    Destroyed,
}

impl VmState {
    /// The position of the state in the life of a VM. A VM only ever moves
    /// to states of a higher position.
    pub open spec fn rank(self) -> int {
        match self {
            VmState::Created => 0,
            VmState::Spawning => 1,
            VmState::Running => 2,
            VmState::Draining => 3,
            VmState::Destroyed => 4,
        }
    }
}

/// What a spawn takes on the host.
#[derive(Debug, Clone, Copy, PartialEq, Eq, Structural)]
pub enum Resource {
    FirewallChain,
    Chroot,
    Cgroup,
    ChildProcess,
    SocketFile,
}

/// The steps of a spawn that touch the host, in their order.
#[derive(Debug, Clone, Copy, PartialEq, Eq, Structural)]
pub enum SpawnStep {
    VerifyRootfs,
    ConfigureFirewall,
    BuildJail,
    StartChild,
    AwaitSocket,
}

impl SpawnStep {
    /// What the step takes on the host.
    pub open spec fn takes(self) -> Seq<Resource> {
        match self {
            SpawnStep::VerifyRootfs => seq![],
            SpawnStep::ConfigureFirewall => seq![Resource::FirewallChain],
            SpawnStep::BuildJail => seq![Resource::Chroot, Resource::Cgroup],
            SpawnStep::StartChild => seq![Resource::ChildProcess],
            SpawnStep::AwaitSocket => seq![Resource::SocketFile],
        }
    }

    /// The step after this one; none after the last.
    pub open spec fn following(self) -> Option<SpawnStep> {
        match self {
            SpawnStep::VerifyRootfs => Some(SpawnStep::ConfigureFirewall),
            SpawnStep::ConfigureFirewall => Some(SpawnStep::BuildJail),
            SpawnStep::BuildJail => Some(SpawnStep::StartChild),
            SpawnStep::StartChild => Some(SpawnStep::AwaitSocket),
            SpawnStep::AwaitSocket => None,
        }
    }

    /// The step after this one.
    pub fn next(&self) -> (out: Option<SpawnStep>)
        ensures
            out == self.following(),
    {
        match self {
            SpawnStep::VerifyRootfs => Some(SpawnStep::ConfigureFirewall),
            SpawnStep::ConfigureFirewall => Some(SpawnStep::BuildJail),
            SpawnStep::BuildJail => Some(SpawnStep::StartChild),
            SpawnStep::StartChild => Some(SpawnStep::AwaitSocket),
            SpawnStep::AwaitSocket => None,
        }
    }
}

/// Why a step of a spawn failed.
#[derive(Debug, Clone, Copy, PartialEq, Eq, Structural)]
pub enum StepFailure {
    /// The image is not authentic or not intact.
    Integrity(IntegrityError),
    /// The host refused for want of privilege.
    PrivilegeDenied,
    /// Kernel, image or hypervisor is not there.
    AssetMissing,
    /// The hypervisor's socket did not appear in time.
    Timeout,
    /// The hypervisor's process ended, with this exit code.
    ChildExited(i32),
}

/// Why a spawn failed.
#[derive(Debug, Clone, Copy, PartialEq, Eq, Structural)]
pub enum SpawnError {
    ConfigInvalid(ConfigError),
    JailInvalid(JailerError),
    /// The jail belongs to another VM.
    JailNotBound,
    IntegrityFailed(IntegrityError),
    PrivilegeDenied,
    AssetMissing,
    SpawnTimeout,
    ChildExited(i32),
}

/// The failure of a spawn that the failure of a step stands for.
pub open spec fn spawn_error_of(failure: StepFailure) -> SpawnError {
    match failure {
        StepFailure::Integrity(e) => SpawnError::IntegrityFailed(e),
        StepFailure::PrivilegeDenied => SpawnError::PrivilegeDenied,
        StepFailure::AssetMissing => SpawnError::AssetMissing,
        StepFailure::Timeout => SpawnError::SpawnTimeout,
        StepFailure::ChildExited(code) => SpawnError::ChildExited(code),
    }
}

/// What the caller of a spawn does next.
#[derive(Debug, Clone, Copy, PartialEq, Eq, Structural)]
pub enum SpawnAction {
    /// Perform this step and report its outcome.
    Perform(SpawnStep),
    /// Every step succeeded: take the handle.
    Complete,
    /// The spawn failed: release what the rollback lists, then report the
    /// failure.
    Abort(SpawnError),
}

/// The model of a spawn under way.
pub struct SpawnView {
    /// The id of the task that the VM is spawned for.
    pub task_id: Seq<char>,
    /// The configuration of the VM, with its syscall filter resolved.
    pub config: VmConfig,
    /// The jail of the VM.
    pub jailer: JailerConfig,
    /// The name of the VM's firewall chain.
    pub chain_name: Seq<char>,
    /// The step to perform; none once the spawn completed or was aborted.
    pub step: Option<SpawnStep>,
    /// What may have been taken on the host so far, in the order of taking.
    pub held: Seq<Resource>,
    /// Why the spawn was aborted, if it was.
    pub aborted: Option<SpawnError>,
    /// Whether the operator allows a VM without its firewall chain where the
    /// host refuses the chain for want of privilege.
    pub allow_degraded: bool,
    /// Whether the firewall chain was left out.
    pub degraded: bool,
}

impl SpawnView {
    /// Every step succeeded.
    pub open spec fn complete(self) -> bool {
        self.step is None && self.aborted is None
    }

    /// What the caller does next.
    pub open spec fn action(self) -> SpawnAction {
        match self.aborted {
            Some(e) => SpawnAction::Abort(e),
            None => match self.step {
                Some(s) => SpawnAction::Perform(s),
                None => SpawnAction::Complete,
            },
        }
    }

    /// Whether the failure of the step to perform is passed over: only a
    /// refusal of the firewall chain for want of privilege, and only where
    /// the operator allows it.
    pub open spec fn passes_over(self, failure: StepFailure) -> bool {
        self.allow_degraded && self.step == Some(SpawnStep::ConfigureFirewall) && failure
            == StepFailure::PrivilegeDenied
    }

    /// The spawn after the outcome of the step to perform was reported. A
    /// success adds what the step takes and moves on. A failure aborts the
    /// spawn, and what the failed step may have taken counts as held. Once
    /// the spawn has completed or was aborted, nothing changes any more.
    pub open spec fn after(self, outcome: Result<(), StepFailure>) -> SpawnView {
        match self.step {
            None => self,
            Some(s) => match outcome {
                Ok(()) => SpawnView { step: s.following(), held: self.held + s.takes(), ..self },
                Err(failure) => if self.passes_over(failure) {
                    SpawnView { step: s.following(), degraded: true, ..self }
                } else {
                    SpawnView {
                        step: None,
                        held: self.held + s.takes(),
                        aborted: Some(spawn_error_of(failure)),
                        ..self
                    }
                },
            },
        }
    }

    /// What is to be released when the spawn is aborted: everything held,
    /// the latest first.
    pub open spec fn rollback(self) -> Seq<Resource> {
        self.held.reverse()
    }
}

/// What is left on a host after the resources of a list were released.
pub open spec fn released(host: Set<Resource>, plan: Seq<Resource>) -> Set<Resource> {
    host.difference(plan.to_set())
}

/// An aborted spawn leaves nothing behind: releasing what the rollback
/// lists removes everything that the spawn may have taken, whichever step
/// failed and for whatever reason.
pub proof fn lemma_abort_releases_everything(spawn: SpawnView, failure: StepFailure)
    requires
        spawn.step is Some,
        !spawn.passes_over(failure),
    ensures
        spawn.after(Err(failure)).aborted == Some(spawn_error_of(failure)),
        spawn.after(Err(failure)).step is None,
        forall|r: Resource|
            spawn.held.contains(r) || spawn.step->0.takes().contains(r) ==> #[trigger] spawn.after(
                Err(failure),
            ).rollback().contains(r),
        released(
            spawn.held.to_set().union(spawn.step->0.takes().to_set()),
            spawn.after(Err(failure)).rollback(),
        ) == Set::<Resource>::empty(),
{
    let end = spawn.after(Err(failure));
    let taken = spawn.step->0.takes();
    assert(end.held == spawn.held + taken);
    assert forall|r: Resource| spawn.held.contains(r) || taken.contains(r) implies #[trigger] end.rollback().contains(
        r,
    ) by {
        let i = if spawn.held.contains(r) {
            choose|i: int| 0 <= i < spawn.held.len() && spawn.held[i] == r
        } else {
            spawn.held.len() + choose|i: int| 0 <= i < taken.len() && taken[i] == r
        };
        assert(end.held[i] == r);
        assert(end.rollback()[end.held.len() - 1 - i] == r);
    }
    assert forall|r: Resource|
        !(#[trigger] released(
            spawn.held.to_set().union(taken.to_set()),
            end.rollback(),
        ).contains(r)) by {
        if spawn.held.to_set().contains(r) || taken.to_set().contains(r) {
            assert(spawn.held.contains(r) || taken.contains(r));
            assert(end.rollback().contains(r));
            assert(end.rollback().to_set().contains(r));
        }
    }
    assert(released(spawn.held.to_set().union(taken.to_set()), end.rollback())
        =~= Set::<Resource>::empty());
}

/// A spawn that was not aborted holds exactly what its finished steps
/// take; once aborted or complete, it stays as it is.
pub proof fn lemma_finished_spawn_is_final(spawn: SpawnView, outcome: Result<(), StepFailure>)
    requires
        spawn.step is None,
    ensures
        spawn.after(outcome) == spawn,
{
}

/// The steps of a teardown, in their order.
#[derive(Debug, Clone, Copy, PartialEq, Eq, Structural)]
pub enum TeardownStep {
    /// Ask the hypervisor to shut down.
    Terminate,
    /// Wait for its exit, for the graceful-shutdown time at most.
    AwaitExit,
    /// Kill it.
    ForceKill,
    RemoveCgroup,
    /// Unmount the overlay and delete its work and upper directories.
    DiscardOverlay,
    RemoveChroot,
    RemoveFirewallChain,
    ReleaseSocket,
    /// Nothing is left to do.
    Done,
}

impl TeardownStep {
    /// The position of the step in a teardown.
    pub open spec fn rank(self) -> int {
        match self {
            TeardownStep::Terminate => 0,
            TeardownStep::AwaitExit => 1,
            TeardownStep::ForceKill => 2,
            TeardownStep::RemoveCgroup => 3,
            TeardownStep::DiscardOverlay => 4,
            TeardownStep::RemoveChroot => 5,
            TeardownStep::RemoveFirewallChain => 6,
            TeardownStep::ReleaseSocket => 7,
            TeardownStep::Done => 8,
        }
    }

    /// The step after this one, given whether this one succeeded. Only the
    /// wait for the exit depends on its outcome: a hypervisor that has not
    /// exited in time is killed. The failure of any other step is passed
    /// over.
    pub open spec fn following(self, succeeded: bool) -> TeardownStep {
        match self {
            TeardownStep::Terminate => TeardownStep::AwaitExit,
            TeardownStep::AwaitExit => if succeeded {
                TeardownStep::RemoveCgroup
            } else {
                TeardownStep::ForceKill
            },
            TeardownStep::ForceKill => TeardownStep::RemoveCgroup,
            TeardownStep::RemoveCgroup => TeardownStep::DiscardOverlay,
            TeardownStep::DiscardOverlay => TeardownStep::RemoveChroot,
            TeardownStep::RemoveChroot => TeardownStep::RemoveFirewallChain,
            TeardownStep::RemoveFirewallChain => TeardownStep::ReleaseSocket,
            TeardownStep::ReleaseSocket => TeardownStep::Done,
            TeardownStep::Done => TeardownStep::Done,
        }
    }

    /// The step after this one.
    pub fn next(self, succeeded: bool) -> (out: TeardownStep)
        ensures
            out == self.following(succeeded),
    {
        match self {
            TeardownStep::Terminate => TeardownStep::AwaitExit,
            TeardownStep::AwaitExit => if succeeded {
                TeardownStep::RemoveCgroup
            } else {
                TeardownStep::ForceKill
            },
            TeardownStep::ForceKill => TeardownStep::RemoveCgroup,
            TeardownStep::RemoveCgroup => TeardownStep::DiscardOverlay,
            TeardownStep::DiscardOverlay => TeardownStep::RemoveChroot,
            TeardownStep::RemoveChroot => TeardownStep::RemoveFirewallChain,
            TeardownStep::RemoveFirewallChain => TeardownStep::ReleaseSocket,
            TeardownStep::ReleaseSocket => TeardownStep::Done,
            TeardownStep::Done => TeardownStep::Done,
        }
    }
}

/// A teardown always moves forward, and no failure halts it: after the
/// hypervisor is gone, each release step leads to the next one whatever its
/// outcome.
pub proof fn lemma_teardown_never_halts(step: TeardownStep, succeeded: bool)
    ensures
        step != TeardownStep::Done ==> step.following(succeeded).rank() > step.rank(),
        step != TeardownStep::AwaitExit ==> step.following(true) == step.following(false),
        TeardownStep::RemoveCgroup.rank() <= step.rank() < TeardownStep::Done.rank()
            ==> step.following(succeeded).rank() == step.rank() + 1,
{
}

/// The teardown step reached from `step` after the outcomes of a run of
/// steps were reported.
pub open spec fn teardown_after(step: TeardownStep, outcomes: Seq<bool>) -> TeardownStep
    decreases outcomes.len(),
{
    if outcomes.len() == 0 {
        step
    } else {
        teardown_after(step.following(outcomes[0]), outcomes.drop_first())
    }
}

/// A teardown is over after eight steps at most, whatever their outcomes.
pub proof fn lemma_teardown_ends(outcomes: Seq<bool>)
    requires
        outcomes.len() >= 8,
    ensures
        teardown_after(TeardownStep::Terminate, outcomes) == TeardownStep::Done,
{
    lemma_teardown_ends_from(TeardownStep::Terminate, outcomes);
}

/// A teardown is over once as many steps were taken as lie between the
/// step it stands at and its end.
proof fn lemma_teardown_ends_from(step: TeardownStep, outcomes: Seq<bool>)
    requires
        outcomes.len() >= TeardownStep::Done.rank() - step.rank(),
    ensures
        teardown_after(step, outcomes) == TeardownStep::Done,
    decreases outcomes.len(),
{
    if outcomes.len() > 0 {
        lemma_teardown_never_halts(step, outcomes[0]);
        lemma_teardown_ends_from(step.following(outcomes[0]), outcomes.drop_first());
    }
}

/// A spawn that may not pass over its firewall completes exactly when each
/// of its five steps succeeds, and then holds everything that its steps
/// take. Otherwise it is aborted with the failure of the first step that
/// did not succeed.
pub proof fn lemma_spawn_completes_only_if_every_step_does(
    start: SpawnView,
    o1: Result<(), StepFailure>,
    o2: Result<(), StepFailure>,
    o3: Result<(), StepFailure>,
    o4: Result<(), StepFailure>,
    o5: Result<(), StepFailure>,
)
    requires
        start == fresh_spawn(start.task_id, start.config, start.jailer, false),
    ensures
        ({
            let end = start.after(o1).after(o2).after(o3).after(o4).after(o5);
            &&& end.complete() <==> o1 is Ok && o2 is Ok && o3 is Ok && o4 is Ok && o5 is Ok
            &&& end.complete() ==> end.held == seq![
                Resource::FirewallChain,
                Resource::Chroot,
                Resource::Cgroup,
                Resource::ChildProcess,
                Resource::SocketFile,
            ]
            &&& !end.complete() ==> end.aborted is Some && end.step is None
            &&& o1 matches Err(f) ==> end.aborted == Some(spawn_error_of(f))
            &&& !end.degraded
            &&& end.task_id == start.task_id && end.config == start.config && end.jailer
                == start.jailer && end.chain_name == start.chain_name
        }),
{
    let s1 = start.after(o1);
    let s2 = s1.after(o2);
    let s3 = s2.after(o3);
    let s4 = s3.after(o4);
    let s5 = s4.after(o5);
    if o1 is Ok && o2 is Ok && o3 is Ok && o4 is Ok && o5 is Ok {
        assert(s5.held =~= seq![
            Resource::FirewallChain,
            Resource::Chroot,
            Resource::Cgroup,
            Resource::ChildProcess,
            Resource::SocketFile,
        ]);
    }
}

/// A spawn under way.
#[derive(Debug)]
pub struct VmSpawn {
    task_id: String,
    config: VmConfig,
    jailer: JailerConfig,
    firewall_manager: FirewallManager,
    allow_degraded: bool,
    degraded: bool,
    step: Option<SpawnStep>,
    held: Vec<Resource>,
    aborted: Option<SpawnError>,
}

impl View for VmSpawn {
    type V = SpawnView;

    closed spec fn view(&self) -> SpawnView {
        SpawnView {
            task_id: self.task_id@,
            config: self.config,
            jailer: self.jailer,
            chain_name: self.firewall_manager.chain_text(),
            step: self.step,
            held: self.held@,
            aborted: self.aborted,
            allow_degraded: self.allow_degraded,
            degraded: self.degraded,
        }
    }
}

/// The characters of an optional path.
pub open spec fn optional_path(path: Option<String>) -> Option<Seq<char>> {
    match path {
        Some(p) => Some(p@),
        None => None,
    }
}

/// A configuration with its syscall filter resolved: the one that is set,
/// else the basic one. Nothing else changes.
pub open spec fn secured(config: VmConfig) -> VmConfig {
    VmConfig { seccomp_filter: Some(effective_filter(config.seccomp_filter)), ..config }
}

/// Whether a jail is the one that goes with a configuration: it has the
/// VM's id, CPUs and memory, and runs as the unprivileged default user.
pub open spec fn jail_made_for(jailer: JailerConfig, config: VmConfig) -> bool {
    &&& jailer.jailer_id@ == config.vm_id@
    &&& jailer.has_default_identity()
    &&& jailer.cpu_count == config.vcpu_count
    &&& jailer.memory_limit_mb == config.memory_mb
    &&& jailer.limits == limits_for(config.vcpu_count, config.memory_mb)
}

/// Whether a configuration is the default one of the VM `vm_id`, with the
/// basic syscall filter.
pub open spec fn default_secured(config: VmConfig, vm_id: Seq<char>) -> bool {
    &&& config.vm_id@ == vm_id
    &&& (VmConfig { seccomp_filter: None, ..config }).has_default_resources()
    &&& config.seccomp_filter == Some(effective_filter(None))
    &&& config.vsock_path matches Some(path) && path@ == vsock_path_of(vm_id)
}

/// A spawn that has not taken its first step yet: it keeps the task, the
/// configuration and the jail as they are, and its chain is named after
/// the VM.
pub open spec fn fresh_spawn(
    task_id: Seq<char>,
    config: VmConfig,
    jailer: JailerConfig,
    allow_degraded: bool,
) -> SpawnView {
    SpawnView {
        task_id,
        config,
        jailer,
        chain_name: chain_name_of(config.vm_id@),
        step: Some(SpawnStep::VerifyRootfs),
        held: Seq::empty(),
        aborted: None,
        allow_degraded,
        degraded: false,
    }
}

/// Why a spawn with the given parameters is refused before any step, if it
/// is: an invalid configuration first, then an invalid jail, then a jail
/// that belongs to another VM.
pub open spec fn spawn_refusal(config: VmConfig, jailer: JailerConfig) -> Option<SpawnError> {
    match config.violation() {
        Some(e) => Some(SpawnError::ConfigInvalid(e)),
        None => match jailer.violation() {
            Some(e) => Some(SpawnError::JailInvalid(e)),
            None => if jailer.jailer_id@ != config.vm_id@ {
                Some(SpawnError::JailNotBound)
            } else {
                None
            },
        },
    }
}

impl SpawnView {
    /// What holds of every spawn: the configuration and the jail break no
    /// rule, the VM has a syscall filter, and the chain is named after the
    /// VM.
    pub open spec fn sound(self) -> bool {
        &&& self.config.violation() is None
        &&& self.jailer.violation() is None
        &&& self.config.seccomp_filter is Some
        &&& self.aborted is Some ==> self.step is None
        &&& self.chain_name == chain_name_of(self.config.vm_id@)
    }

    /// The chroot of the VM.
    pub open spec fn jail_root(self) -> Seq<char> {
        chroot_dir_of(self.jailer.chroot_base@, self.jailer.jailer_id@)
    }
}

impl VmSpawn {
    #[verifier::type_invariant]
    spec fn inv(self) -> bool {
        &&& self.config.violation() is None
        &&& self.jailer.violation() is None
        &&& self.config.seccomp_filter is Some
        &&& self.aborted is Some ==> self.step is None
        &&& self.firewall_manager.vm_id_text() == self.config.vm_id@
        &&& self.firewall_manager.chain_text() == chain_name_of(self.config.vm_id@)
    }

    /// Starts a spawn. The configuration and the jail are checked first; a
    /// refused spawn takes nothing on the host. Where no syscall filter is
    /// set, the VM gets the basic one; everything else of the configuration
    /// is kept as it is.
    pub fn begin(task_id: &str, config: VmConfig, jailer: JailerConfig, allow_degraded: bool) -> (out:
        Result<VmSpawn, SpawnError>)
        ensures
            match out {
                Ok(spawn) => {
                    &&& spawn_refusal(config, jailer) is None
                    &&& spawn@ == fresh_spawn(task_id@, secured(config), jailer, allow_degraded)
                    &&& spawn@.sound()
                },
                Err(e) => spawn_refusal(config, jailer) == Some(e),
            },
    {
        match config.check() {
            Ok(()) => {},
            Err(e) => {
                return Err(SpawnError::ConfigInvalid(e));
            },
        }
        match jailer.validate() {
            Ok(()) => {},
            Err(e) => {
                return Err(SpawnError::JailInvalid(e));
            },
        }
        if !crate::text::same_text(jailer.jailer_id.as_str(), config.vm_id.as_str()) {
            return Err(SpawnError::JailNotBound);
        }
        let filter = filter_or_default(config.seccomp_filter);
        let firewall_manager = FirewallManager::new(config.vm_id.clone());
        let secured = VmConfig { seccomp_filter: Some(filter), ..config };
        Ok(
            VmSpawn {
                task_id: owned(task_id),
                config: secured,
                jailer,
                firewall_manager,
                allow_degraded,
                degraded: false,
                step: Some(SpawnStep::VerifyRootfs),
                held: Vec::new(),
                aborted: None,
            },
        )
    }

    /// What the caller does next.
    pub fn action(&self) -> (out: SpawnAction)
        ensures
            out == self@.action(),
    {
        match self.aborted {
            Some(e) => SpawnAction::Abort(e),
            None => match self.step {
                Some(s) => SpawnAction::Perform(s),
                None => SpawnAction::Complete,
            },
        }
    }

    /// The state of the VM: spawning until the spawn is aborted.
    pub fn state(&self) -> (out: VmState)
        ensures
            out == if self@.aborted is Some {
                VmState::Destroyed
            } else {
                VmState::Spawning
            },
    {
        match self.aborted {
            Some(_) => VmState::Destroyed,
            None => VmState::Spawning,
        }
    }

    /// The id of the task that the VM is spawned for.
    pub fn task_id(&self) -> (out: &str)
        ensures
            out@ == self@.task_id,
    {
        self.task_id.as_str()
    }

    /// The configuration of the VM, with its syscall filter resolved. It
    /// breaks no rule.
    pub fn config(&self) -> (out: &VmConfig)
        ensures
            *out == self@.config,
            self@.sound(),
    {
        proof {
            use_type_invariant(self);
        }
        &self.config
    }

    /// The jail of the VM. The hypervisor never runs as the superuser.
    pub fn jailer(&self) -> (out: &JailerConfig)
        ensures
            *out == self@.jailer,
            self@.sound(),
            out.uid != 0,
            out.gid != 0,
            out.limits.memory_bytes == out.memory_limit_mb * MIB,
    {
        proof {
            use_type_invariant(self);
        }
        &self.jailer
    }

    /// The controller of the VM's firewall chain, which is named after the
    /// VM.
    pub fn firewall(&self) -> (out: &FirewallManager)
        ensures
            out.vm_id_text() == self@.config.vm_id@,
            out.chain_text() == self@.chain_name,
            self@.chain_name == chain_name_of(self@.config.vm_id@),
    {
        proof {
            use_type_invariant(self);
        }
        &self.firewall_manager
    }

    /// Takes the outcome of the step to perform and says what to do next.
    /// The task, the configuration, the jail and the chain stay as they
    /// are.
    pub fn advance(&mut self, outcome: Result<(), StepFailure>) -> (out: SpawnAction)
        ensures
            final(self)@ == old(self)@.after(outcome),
            out == final(self)@.action(),
            final(self)@.sound(),
    {
        proof {
            use_type_invariant(&*self);
        }
        let step = match self.step {
            Some(s) => s,
            None => {
                return self.action();
            },
        };
        match outcome {
            Ok(()) => {
                self.take(step);
                self.step = step.next();
            },
            Err(failure) => {
                let pass = self.allow_degraded && matches!(step, SpawnStep::ConfigureFirewall)
                    && matches!(failure, StepFailure::PrivilegeDenied);
                if pass {
                    self.degraded = true;
                    self.step = step.next();
                } else {
                    self.take(step);
                    self.step = None;
                    self.aborted = Some(
                        match failure {
                            StepFailure::Integrity(e) => SpawnError::IntegrityFailed(e),
                            StepFailure::PrivilegeDenied => SpawnError::PrivilegeDenied,
                            StepFailure::AssetMissing => SpawnError::AssetMissing,
                            StepFailure::Timeout => SpawnError::SpawnTimeout,
                            StepFailure::ChildExited(code) => SpawnError::ChildExited(code),
                        },
                    );
                }
            },
        }
        self.action()
    }

    /// Counts what a step takes as held.
    fn take(&mut self, step: SpawnStep)
        ensures
            final(self).held@ == old(self).held@ + step.takes(),
            final(self).step == old(self).step,
            final(self).aborted == old(self).aborted,
            final(self).allow_degraded == old(self).allow_degraded,
            final(self).degraded == old(self).degraded,
            final(self).config == old(self).config,
            final(self).jailer == old(self).jailer,
            final(self).task_id == old(self).task_id,
            final(self).firewall_manager == old(self).firewall_manager,
    {
        proof {
            use_type_invariant(&*self);
        }
        let ghost before = self.held@;
        let mut held: Vec<Resource> = Vec::new();
        let mut i: usize = 0;
        while i < self.held.len()
            invariant
                i <= self.held.len(),
                held@ == self.held@.take(i as int),
            decreases self.held.len() - i,
        {
            assert(self.held@.take(i + 1) =~= self.held@.take(i as int).push(self.held@[i as int]));
            held.push(self.held[i]);
            i += 1;
        }
        assert(self.held@.take(self.held.len() as int) =~= self.held@);
        match step {
            SpawnStep::VerifyRootfs => {},
            SpawnStep::ConfigureFirewall => {
                held.push(Resource::FirewallChain);
            },
            SpawnStep::BuildJail => {
                held.push(Resource::Chroot);
                held.push(Resource::Cgroup);
            },
            SpawnStep::StartChild => {
                held.push(Resource::ChildProcess);
            },
            SpawnStep::AwaitSocket => {
                held.push(Resource::SocketFile);
            },
        }
        assert(held@ =~= before + step.takes());
        self.held = held;
    }

    /// What is to be released after an abort: everything that the spawn may
    /// have taken, the latest first.
    pub fn rollback(&self) -> (out: Vec<Resource>)
        ensures
            out@ == self@.rollback(),
    {
        let mut out: Vec<Resource> = Vec::new();
        let mut i: usize = self.held.len();
        while i > 0
            invariant
                i <= self.held.len(),
                out.len() == self.held.len() - i,
                forall|k: int| 0 <= k < out.len() ==> out@[k] == self.held@[self.held.len() - 1 - k],
            decreases i,
        {
            i -= 1;
            out.push(self.held[i]);
        }
        assert(out@ =~= self.held@.reverse());
        out
    }

    /// Hands out the handle of the VM. There is a handle only for a spawn
    /// of which every step succeeded.
    pub fn finish(self, pid: u32, socket_path: String, spawn_time_ms: u64) -> (out: Option<VmHandle>)
        ensures
            out is Some <==> self@.complete(),
            out matches Some(handle) ==> handle@ == fresh_handle(
                self@,
                pid,
                socket_path@,
                spawn_time_ms,
            ),
    {
        proof {
            use_type_invariant(&self);
        }
        if self.step.is_some() || self.aborted.is_some() {
            return None;
        }
        let jail_root = self.jailer.chroot_dir();
        let firewall_manager = if self.degraded {
            None
        } else {
            Some(self.firewall_manager)
        };
        Some(
            VmHandle {
                id: self.task_id,
                spawn_time_ms,
                state: VmState::Running,
                teardown: TeardownStep::Terminate,
                config: self.config,
                firewall_manager,
                pid,
                socket_path,
                jail_root,
                held: self.held,
            },
        )
    }

}

/// The model of a handle.
pub struct HandleView {
    /// The id of the task that the VM runs.
    pub id: Seq<char>,
    /// How long the spawn took, in milliseconds.
    pub spawn_time_ms: u64,
    /// The configuration of the VM.
    pub config: VmConfig,
    /// The process id of the hypervisor.
    pub pid: u32,
    /// The socket of the hypervisor's API.
    pub socket_path: Seq<char>,
    /// The chroot of the VM.
    pub jail_root: Seq<char>,
    /// The name of the VM's firewall chain, where the VM has one.
    pub chain_name: Option<Seq<char>>,
    pub state: VmState,
    /// The teardown step to perform next.
    pub teardown: TeardownStep,
    /// What the VM holds on the host.
    pub held: Seq<Resource>,
}

/// The handle that a completed spawn hands out: a running VM that holds
/// what the spawn took, with the task, the configuration and the chroot of
/// the spawn, and with the spawn's chain unless the chain was left out.
pub open spec fn fresh_handle(
    spawn: SpawnView,
    pid: u32,
    socket_path: Seq<char>,
    spawn_time_ms: u64,
) -> HandleView {
    HandleView {
        id: spawn.task_id,
        spawn_time_ms,
        config: spawn.config,
        pid,
        socket_path,
        jail_root: spawn.jail_root(),
        chain_name: if spawn.degraded {
            None
        } else {
            Some(spawn.chain_name)
        },
        state: VmState::Running,
        teardown: TeardownStep::Terminate,
        held: spawn.held,
    }
}

/// The handle of a running VM. It owns what the VM holds on the host.
#[derive(Debug)]
pub struct VmHandle {
    id: String,
    spawn_time_ms: u64,
    state: VmState,
    teardown: TeardownStep,
    config: VmConfig,
    firewall_manager: Option<FirewallManager>,
    pid: u32,
    socket_path: String,
    jail_root: String,
    held: Vec<Resource>,
}

impl View for VmHandle {
    type V = HandleView;

    closed spec fn view(&self) -> HandleView {
        HandleView {
            id: self.id@,
            spawn_time_ms: self.spawn_time_ms,
            config: self.config,
            pid: self.pid,
            socket_path: self.socket_path@,
            jail_root: self.jail_root@,
            chain_name: match self.firewall_manager {
                Some(manager) => Some(manager.chain_text()),
                None => None,
            },
            state: self.state,
            teardown: self.teardown,
            held: self.held@,
        }
    }
}

impl HandleView {
    /// Whether the VM has its firewall chain.
    pub open spec fn isolated(self) -> bool {
        self.chain_name is Some
    }

    /// Whether two handles name the same things on the host: the task, the
    /// configuration, the process, the socket, the chroot and the chain.
    pub open spec fn names_what(self, other: HandleView) -> bool {
        &&& self.id == other.id
        &&& self.spawn_time_ms == other.spawn_time_ms
        &&& self.config == other.config
        &&& self.pid == other.pid
        &&& self.socket_path == other.socket_path
        &&& self.jail_root == other.jail_root
        &&& self.chain_name == other.chain_name
    }

    /// What holds of every handle: the VM is running or beyond, and its
    /// chain, where it has one, is named after the VM.
    pub open spec fn sound(self) -> bool {
        &&& self.state.rank() >= VmState::Running.rank()
        &&& self.state == VmState::Destroyed ==> self.teardown == TeardownStep::Done
        &&& self.state == VmState::Running ==> self.teardown == TeardownStep::Terminate
        &&& self.chain_name matches Some(name) ==> name == chain_name_of(self.config.vm_id@)
    }

    /// The handle after a destroy was asked for. A destroyed VM stays as it
    /// is; any other VM starts to drain, or goes on draining.
    pub open spec fn draining(self) -> HandleView {
        if self.state == VmState::Destroyed || self.state == VmState::Draining {
            self
        } else {
            HandleView { state: VmState::Draining, teardown: TeardownStep::Terminate, ..self }
        }
    }

    /// The handle after the outcome of a teardown step was reported. Once
    /// the last step is over the VM is destroyed and holds nothing.
    pub open spec fn torn(self, succeeded: bool) -> HandleView {
        if self.state != VmState::Draining {
            self
        } else if self.teardown.following(succeeded) == TeardownStep::Done {
            HandleView {
                state: VmState::Destroyed,
                teardown: TeardownStep::Done,
                held: Seq::empty(),
                ..self
            }
        } else {
            HandleView { teardown: self.teardown.following(succeeded), ..self }
        }
    }
}

impl VmHandle {
    #[verifier::type_invariant]
    spec fn inv(self) -> bool {
        &&& self.state.rank() >= VmState::Running.rank()
        &&& self.state == VmState::Destroyed ==> self.teardown == TeardownStep::Done
        &&& self.state == VmState::Running ==> self.teardown == TeardownStep::Terminate
        &&& self.firewall_manager matches Some(manager) ==> manager.vm_id_text()
            == self.config.vm_id@ && manager.chain_text() == chain_name_of(self.config.vm_id@)
    }

    /// The chroot of the VM, which is removed on teardown.
    pub fn jail_root(&self) -> (out: &str)
        ensures
            out@ == self@.jail_root,
    {
        self.jail_root.as_str()
    }

    /// The id of the task that the VM runs.
    pub fn id(&self) -> (out: &str)
        ensures
            out@ == self@.id,
    {
        self.id.as_str()
    }

    /// The configuration of the VM.
    pub fn config(&self) -> (out: &VmConfig)
        ensures
            *out == self@.config,
    {
        &self.config
    }

    /// How long the spawn took, in milliseconds.
    pub fn spawn_time_ms(&self) -> (out: u64)
        ensures
            out == self@.spawn_time_ms,
    {
        self.spawn_time_ms
    }

    /// The socket of the VM's side channel.
    pub fn vsock_path(&self) -> (out: Option<&str>)
        ensures
            optional_str(out) == optional_path(self@.config.vsock_path),
    {
        match &self.config.vsock_path {
            Some(p) => Some(p.as_str()),
            None => None,
        }
    }

    /// The state of the VM: running, draining or destroyed.
    pub fn state(&self) -> (out: VmState)
        ensures
            out == self@.state,
            self@.sound(),
    {
        proof {
            use_type_invariant(self);
        }
        self.state
    }

    /// The process id of the hypervisor.
    pub fn pid(&self) -> (out: u32)
        ensures
            out == self@.pid,
    {
        self.pid
    }

    /// The socket of the hypervisor's API.
    pub fn socket_path(&self) -> (out: &str)
        ensures
            out@ == self@.socket_path,
    {
        self.socket_path.as_str()
    }

    /// The controller of the VM's firewall chain, where the VM has one. The
    /// chain is named after the VM.
    pub fn firewall(&self) -> (out: Option<&FirewallManager>)
        ensures
            match out {
                Some(manager) => self@.chain_name == Some(manager.chain_text())
                    && manager.vm_id_text() == self@.config.vm_id@,
                None => self@.chain_name is None,
            },
            self@.sound(),
    {
        proof {
            use_type_invariant(self);
        }
        self.firewall_manager.as_ref()
    }

    /// What the VM holds on the host.
    pub fn held(&self) -> (out: &Vec<Resource>)
        ensures
            out@ == self@.held,
    {
        &self.held
    }

    /// Whether the spawn kept within its time budget.
    pub fn within_budget(&self) -> (out: bool)
        ensures
            out == (self@.spawn_time_ms <= SPAWN_BUDGET_MS),
    {
        self.spawn_time_ms <= SPAWN_BUDGET_MS
    }

    /// Asks for the VM to be destroyed and says which teardown step to
    /// perform. For a destroyed VM there is nothing to do and nothing
    /// changes. Only the state and the step change: the process, the
    /// sockets, the chroot and the chain to release stay as they are.
    pub fn destroy(&mut self) -> (out: TeardownStep)
        ensures
            final(self)@ == old(self)@.draining(),
            out == final(self)@.teardown,
            old(self)@.state == VmState::Destroyed ==> out == TeardownStep::Done && final(self)@
                == old(self)@,
            final(self)@.state.rank() >= old(self)@.state.rank(),
            final(self)@.names_what(old(self)@),
            final(self)@.sound(),
    {
        proof {
            use_type_invariant(&*self);
        }
        match self.state {
            VmState::Destroyed => TeardownStep::Done,
            VmState::Draining => self.teardown,
            _ => {
                self.state = VmState::Draining;
                TeardownStep::Terminate
            },
        }
    }

    /// Takes the outcome of the teardown step that was performed and says
    /// which step to perform next. The failure of a step does not halt the
    /// teardown. Once the last step is over the VM is destroyed and holds
    /// nothing. What names the things to release stays as it is.
    pub fn teardown_advance(&mut self, succeeded: bool) -> (out: TeardownStep)
        ensures
            final(self)@ == old(self)@.torn(succeeded),
            out == final(self)@.teardown,
            final(self)@.state.rank() >= old(self)@.state.rank(),
            old(self)@.state == VmState::Destroyed ==> final(self)@ == old(self)@,
            final(self)@.names_what(old(self)@),
            final(self)@.sound(),
    {
        proof {
            use_type_invariant(&*self);
        }
        match self.state {
            VmState::Draining => {
                let next = self.teardown.next(succeeded);
                match next {
                    TeardownStep::Done => {
                        self.held = Vec::new();
                        self.teardown = TeardownStep::Done;
                        self.state = VmState::Destroyed;
                    },
                    _ => {
                        self.teardown = next;
                    },
                }
                next
            },
            _ => self.teardown,
        }
    }

    /// Judges the network isolation of the VM from the outcome of listing
    /// its chain. A VM without a chain is never isolated.
    pub fn verify_isolation(&self, ran: bool, succeeded: bool, listing: &str) -> (out: bool)
        ensures
            out == (self@.isolated() && isolation_verified(ran, succeeded, listing@)),
    {
        match &self.firewall_manager {
            Some(firewall) => firewall.verify_isolation(ran, succeeded, listing),
            None => false,
        }
    }
}

/// Starts the spawn of a VM for a task, with the default configuration and
/// the jail that goes with it.
pub fn spawn_vm(task_id: &str) -> (out: Result<VmSpawn, SpawnError>)
    ensures
        out matches Ok(spawn) && {
            &&& spawn@ == fresh_spawn(task_id@, spawn@.config, spawn@.jailer, false)
            &&& default_secured(spawn@.config, task_id@)
            &&& jail_made_for(spawn@.jailer, spawn@.config)
            &&& spawn@.sound()
        },
{
    let config = VmConfig::new(owned(task_id));
    let jailer = JailerConfig::for_vm(&config);
    proof {
        reveal_strlit("/usr/local/bin/firecracker-v1.14.1");
        assert(jailer.violation() is None);
    }
    VmSpawn::begin(task_id, config, jailer, false)
}

/// Starts the spawn of a VM for a task with a given configuration and the
/// jail that goes with it.
pub fn spawn_vm_with_config(task_id: &str, config: VmConfig) -> (out: Result<VmSpawn, SpawnError>)
    ensures
        match out {
            Ok(spawn) => {
                &&& config.violation() is None
                &&& spawn@ == fresh_spawn(task_id@, secured(config), spawn@.jailer, false)
                &&& jail_made_for(spawn@.jailer, config)
                &&& spawn@.sound()
            },
            Err(e) => config.violation() matches Some(v) && e == SpawnError::ConfigInvalid(v),
        },
{
    let jailer = JailerConfig::for_vm(&config);
    proof {
        if config.violation() is None {
            reveal_strlit("/usr/local/bin/firecracker-v1.14.1");
            assert(jailer.violation() is None);
        }
    }
    VmSpawn::begin(task_id, config, jailer, false)
}

/// Starts the spawn of a VM for a task with a given configuration and a
/// given jail.
pub fn spawn_vm_jailed(task_id: &str, config: VmConfig, jailer: JailerConfig) -> (out: Result<
    VmSpawn,
    SpawnError,
>)
    ensures
        match out {
            Ok(spawn) => {
                &&& spawn_refusal(config, jailer) is None
                &&& spawn@ == fresh_spawn(task_id@, secured(config), jailer, false)
                &&& spawn@.sound()
            },
            Err(e) => spawn_refusal(config, jailer) == Some(e),
        },
{
    VmSpawn::begin(task_id, config, jailer, false)
}

/// Asks for a VM to be destroyed. Destroying a destroyed VM is a success
/// with nothing to do. What names the things to release stays as it is.
pub fn destroy_vm(handle: &mut VmHandle) -> (out: TeardownStep)
    ensures
        final(handle)@ == old(handle)@.draining(),
        out == final(handle)@.teardown,
        old(handle)@.state == VmState::Destroyed ==> out == TeardownStep::Done && final(handle)@
            == old(handle)@,
        final(handle)@.names_what(old(handle)@),
{
    handle.destroy()
}

/// Asks for a jailed VM to be destroyed, and names the chroot to remove on
/// the way.
pub fn destroy_vm_jailed(handle: &mut VmHandle, jailer: &JailerConfig) -> (out: (
    TeardownStep,
    String,
))
    ensures
        final(handle)@ == old(handle)@.draining(),
        out.0 == final(handle)@.teardown,
        out.1@ == crate::vm::jailer::chroot_dir_of(jailer.chroot_base@, jailer.jailer_id@),
        final(handle)@.names_what(old(handle)@),
{
    let step = handle.destroy();
    (step, jailer.chroot_dir())
}

/// Judges the network isolation of a VM from the outcome of listing its
/// chain.
pub fn verify_network_isolation(handle: &VmHandle, ran: bool, succeeded: bool, listing: &str) -> (out:
    bool)
    ensures
        out == (handle@.isolated() && isolation_verified(ran, succeeded, listing@)),
{
    handle.verify_isolation(ran, succeeded, listing)
}

/// What was read from the host for the check of an image.
pub struct RootfsEvidence<'a> {
    /// The bytes of the image, where it is there.
    pub image: Option<&'a [u8]>,
    /// The text of the signature file, where it is there.
    pub signature_file: Option<&'a str>,
    /// The id of the key that the host trusts.
    pub trusted_key_id: &'a str,
    /// Whether the signature verified against the host's public key.
    pub signature_valid: bool,
    /// The root of the hash tree that the host holds, if it holds one.
    pub tree_root: Option<&'a str>,
}

/// Whether a configuration asks for the check of the image's signature:
/// it names both a signature and a public key.
pub open spec fn asks_for_signature(config: VmConfig) -> bool {
    config.signature_path is Some && config.public_key_path is Some
}

/// Whether the hash tree that the host holds is the one of the image. A
/// configuration that names no hash tree asks for none.
pub open spec fn tree_checked(config: VmConfig, image: Seq<u8>, tree_root: Option<Seq<char>>) -> bool {
    config.hash_tree_path is Some ==> tree_root == Some(tree_root_of(image))
}

/// What the check of a signed image comes to: the signature file must
/// hold a record, and the record must accept the image.
pub open spec fn signed_verdict(
    image: Option<Seq<u8>>,
    signature_file: Option<Seq<char>>,
    trusted_key_id: Seq<char>,
    signature_valid: bool,
    tree_root: Option<Seq<char>>,
) -> Result<(), IntegrityError> {
    match signature_file {
        None => Err(IntegrityError::SignatureInvalid),
        Some(text) => match record_in(text) {
            None => Err(IntegrityError::SignatureInvalid),
            Some(record) => integrity_verdict(
                image,
                record,
                trusted_key_id,
                signature_valid,
                tree_root,
            ),
        },
    }
}

/// Whether the image of a VM may be booted, and if not, why. Every check
/// that the configuration names is made. A configuration that names a
/// signature without a public key, or a public key without a signature,
/// names a check that cannot be made, and is refused. A configuration that
/// names neither asks for no signature. Where a hash tree is named, the
/// tree that the host holds must be the one of the image.
pub open spec fn image_verdict(
    config: VmConfig,
    image: Option<Seq<u8>>,
    signature_file: Option<Seq<char>>,
    trusted_key_id: Seq<char>,
    signature_valid: bool,
    tree_root: Option<Seq<char>>,
) -> Result<(), IntegrityError> {
    match (config.signature_path, config.public_key_path) {
        (Some(_), None) => Err(IntegrityError::KeyUnknown),
        (None, Some(_)) => Err(IntegrityError::SignatureInvalid),
        (None, None) => match image {
            None => Err(IntegrityError::NotFound),
            Some(bytes) => if tree_checked(config, bytes, tree_root) {
                Ok(())
            } else {
                Err(IntegrityError::HashTreeMismatch)
            },
        },
        (Some(_), Some(_)) => match signed_verdict(
            image,
            signature_file,
            trusted_key_id,
            signature_valid,
            tree_root,
        ) {
            Err(e) => Err(e),
            Ok(()) => if image matches Some(bytes) && tree_checked(config, bytes, tree_root) {
                Ok(())
            } else {
                Err(IntegrityError::HashTreeMismatch)
            },
        },
    }
}

/// What the check of the image comes to as the outcome of the spawn's
/// first step.
pub open spec fn rootfs_verdict(
    config: VmConfig,
    image: Option<Seq<u8>>,
    signature_file: Option<Seq<char>>,
    trusted_key_id: Seq<char>,
    signature_valid: bool,
    tree_root: Option<Seq<char>>,
) -> Result<(), StepFailure> {
    match image_verdict(
        config,
        image,
        signature_file,
        trusted_key_id,
        signature_valid,
        tree_root,
    ) {
        Ok(()) => Ok(()),
        Err(e) => Err(StepFailure::Integrity(e)),
    }
}

/// An image passes only where every check that the configuration names was
/// made and found good: the image is there; where a signature or a public
/// key is named, both are, the signature file holds a record of a trusted
/// key with the checksum of the image, and the signature verified; where a
/// hash tree is named, the host holds the tree of the image.
pub proof fn lemma_no_named_check_is_skipped(
    config: VmConfig,
    image: Option<Seq<u8>>,
    signature_file: Option<Seq<char>>,
    trusted_key_id: Seq<char>,
    signature_valid: bool,
    tree_root: Option<Seq<char>>,
)
    requires
        rootfs_verdict(config, image, signature_file, trusted_key_id, signature_valid, tree_root)
            is Ok,
    ensures
        image is Some,
        config.hash_tree_path is Some ==> tree_root == Some(tree_root_of(image->0)),
        config.signature_path is Some || config.public_key_path is Some ==> {
            &&& asks_for_signature(config)
            &&& signature_valid
            &&& signature_file matches Some(text) && record_in(text) matches Some(record)
                && record.key_id == trusted_key_id && record.checksum == checksum_of(image->0)
                && tree_accepted(record, tree_root)
        },
{
}

/// Whether the host holds the hash tree of the image, where the
/// configuration names one.
fn tree_is_checked(config: &VmConfig, image: &[u8], tree_root: Option<&str>) -> (out: bool)
    ensures
        out == tree_checked(*config, image@, optional_str(tree_root)),
{
    if config.hash_tree_path.is_none() {
        return true;
    }
    match tree_root {
        Some(found) => {
            let computed = merkle_root_hex(image);
            same_text(found, computed.as_str())
        },
        None => false,
    }
}

/// Judges the image of a VM from what was read from the host.
pub fn verify_rootfs_step(config: &VmConfig, evidence: &RootfsEvidence<'_>) -> (out: Result<
    (),
    StepFailure,
>)
    ensures
        out == rootfs_verdict(
            *config,
            optional_bytes(evidence.image),
            optional_str(evidence.signature_file),
            evidence.trusted_key_id@,
            evidence.signature_valid,
            optional_str(evidence.tree_root),
        ),
{
    match (&config.signature_path, &config.public_key_path) {
        (Some(_), None) => {
            return Err(StepFailure::Integrity(IntegrityError::KeyUnknown));
        },
        (None, Some(_)) => {
            return Err(StepFailure::Integrity(IntegrityError::SignatureInvalid));
        },
        (None, None) => {
            return match evidence.image {
                None => Err(StepFailure::Integrity(IntegrityError::NotFound)),
                Some(bytes) => if tree_is_checked(config, bytes, evidence.tree_root) {
                    Ok(())
                } else {
                    Err(StepFailure::Integrity(IntegrityError::HashTreeMismatch))
                },
            };
        },
        (Some(_), Some(_)) => {},
    }
    let text = match evidence.signature_file {
        Some(text) => text,
        None => {
            return Err(StepFailure::Integrity(IntegrityError::SignatureInvalid));
        },
    };
    let record = match parse_signature_file(text) {
        Some(record) => record,
        None => {
            return Err(StepFailure::Integrity(IntegrityError::SignatureInvalid));
        },
    };
    match check_integrity(
        evidence.image,
        &record,
        evidence.trusted_key_id,
        evidence.signature_valid,
        evidence.tree_root,
    ) {
        Err(e) => Err(StepFailure::Integrity(e)),
        Ok(()) => match evidence.image {
            Some(bytes) => if tree_is_checked(config, bytes, evidence.tree_root) {
                Ok(())
            } else {
                Err(StepFailure::Integrity(IntegrityError::HashTreeMismatch))
            },
            None => Err(StepFailure::Integrity(IntegrityError::HashTreeMismatch)),
        },
    }
}

/// A spawn from a signed image whose bytes do not have the signed checksum
/// is aborted at its first step with an integrity failure, whatever else
/// was found on the host: it never completes, and so hands out no handle.
pub proof fn lemma_changed_image_never_spawns(
    spawn: SpawnView,
    image: Seq<u8>,
    signature_file: Seq<char>,
    trusted_key_id: Seq<char>,
    signature_valid: bool,
    tree_root: Option<Seq<char>>,
)
    requires
        spawn.step == Some(SpawnStep::VerifyRootfs),
        spawn.aborted is None,
        asks_for_signature(spawn.config),
        record_in(signature_file) matches Some(record) ==> checksum_of(image) != record.checksum,
    ensures
        ({
            let verdict = rootfs_verdict(
                spawn.config,
                Some(image),
                Some(signature_file),
                trusted_key_id,
                signature_valid,
                tree_root,
            );
            let end = spawn.after(verdict);
            &&& verdict matches Err(StepFailure::Integrity(e)) && end.aborted == Some(
                SpawnError::IntegrityFailed(e),
            ) && end.action() == SpawnAction::Abort(SpawnError::IntegrityFailed(e))
            &&& !end.complete()
            &&& end.held == spawn.held
        }),
{
    let verdict = rootfs_verdict(
        spawn.config,
        Some(image),
        Some(signature_file),
        trusted_key_id,
        signature_valid,
        tree_root,
    );
    assert(verdict is Err);
    assert(spawn.held + SpawnStep::VerifyRootfs.takes() =~= spawn.held);
}

/// What the setup of the firewall chain comes to: a chain that could not
/// be set up counts as a want of privilege.
pub fn firewall_step(outcome: Result<(), FirewallError>) -> (out: Result<(), StepFailure>)
    ensures
        out == match outcome {
            Ok(()) => Ok::<(), StepFailure>(()),
            Err(_) => Err::<(), StepFailure>(StepFailure::PrivilegeDenied),
        },
{
    match outcome {
        Ok(()) => Ok(()),
        Err(_) => Err(StepFailure::PrivilegeDenied),
    }
}

/// What the building of the jail comes to: a missing kernel, image or
/// hypervisor counts as a missing asset, a jail that the host refuses as a
/// want of privilege.
pub fn jail_step(assets_present: bool, built: bool) -> (out: Result<(), StepFailure>)
    ensures
        out == if !assets_present {
            Err::<(), StepFailure>(StepFailure::AssetMissing)
        } else if !built {
            Err::<(), StepFailure>(StepFailure::PrivilegeDenied)
        } else {
            Ok::<(), StepFailure>(())
        },
{
    if !assets_present {
        Err(StepFailure::AssetMissing)
    } else if !built {
        Err(StepFailure::PrivilegeDenied)
    } else {
        Ok(())
    }
}

/// Where the wait for the hypervisor's socket stands: the socket is there,
/// the hypervisor has ended with an exit code, the time is up, or the wait
/// goes on.
pub open spec fn socket_wait(socket_exists: bool, exit_code: Option<i32>, elapsed_ms: u64) -> Option<
    Result<(), StepFailure>,
> {
    if socket_exists {
        Some(Ok(()))
    } else {
        match exit_code {
            Some(code) => Some(Err(StepFailure::ChildExited(code))),
            None => if elapsed_ms > SPAWN_TIMEOUT_MS {
                Some(Err(StepFailure::Timeout))
            } else {
                None
            },
        }
    }
}

/// Decides whether the wait for the hypervisor's socket is over, and how it
/// ended. The wait is bounded by the spawn timeout.
pub fn await_socket_step(socket_exists: bool, exit_code: Option<i32>, elapsed_ms: u64) -> (out: Option<
    Result<(), StepFailure>,
>)
    ensures
        out == socket_wait(socket_exists, exit_code, elapsed_ms),
        elapsed_ms > SPAWN_TIMEOUT_MS ==> out is Some,
{
    if socket_exists {
        Some(Ok(()))
    } else {
        match exit_code {
            Some(code) => Some(Err(StepFailure::ChildExited(code))),
            None => if elapsed_ms > SPAWN_TIMEOUT_MS {
                Some(Err(StepFailure::Timeout))
            } else {
                None
            },
        }
    }
}

} // verus!
