//! The kiosk state machine. It owns the mode, the dialog allowance, the
//! liveness of the input hook and the registry of launched processes, and
//! consumes the named events of the surrounding shell: enable and disable
//! requests, application launches, on-demand pruning of dead processes,
//! window focus, and temporary dialog allowances.
//!
//! The engine decides; the shell performs. Every OS outcome the decision
//! depends on (did the hook install, did the spawn succeed, is a process
//! alive) reaches the engine as a plain value, so each transition is
//! verified for every outcome the OS can produce.
use vstd::prelude::*;
use vstd::string::StringExecFns;

use crate::chrome::{spec_chrome_for, chrome_for_mode, WindowChromeState};
use crate::error::EngineError;
use crate::interceptor::{spec_decide_key, decide_key, KeyDecision};
use crate::registry::{
    spec_count_true, spec_entries_unique, spec_filter_alive, spec_insert_entry,
    lemma_filter_alive_len, lemma_filter_alive_sub_wf, lemma_insert_entry_unique, LaunchedApp,
    LaunchedProcessRegistry,
};
use crate::text::{append_u64, spec_u64_string};

verus! {

/// The operating mode of the kiosk.
#[derive(Clone, Copy, Debug, PartialEq, Eq, Structural)]
pub enum KioskMode {
    /// No suppression: a normal desktop.
    Disabled,
    /// Suppression active and no managed application tracked.
    Strict,
    /// Suppression partially relaxed: at least one managed application
    /// is tracked.
    Permissive,
}

/// What came of attempting to install the global input hook.
#[derive(Clone, Debug)]
pub enum HookInstallOutcome {
    /// The hook is installed and live.
    Installed,
    /// The OS refused the hook; its error text follows.
    Failed(String),
    /// The platform has no such mechanism.
    Unsupported,
}

/// What came of attempting to spawn a managed application.
#[derive(Clone, Debug)]
pub enum SpawnOutcome {
    /// The process started, with this identifier.
    Spawned(u32),
    /// The spawn failed; the OS error text follows.
    Failed(String),
}

/// The mathematical state of the engine.
#[verifier::ext_equal]
pub ghost struct EngineModel {
    /// The operating mode.
    pub mode: KioskMode,
    /// Whether a temporary dialog allowance is in force.
    pub dialog_allowance: bool,
    /// Whether the input hook is installed.
    pub hook_live: bool,
    /// The tracked launched processes, oldest first.
    pub entries: Seq<LaunchedApp>,
}

/// Well-formedness of an engine state: permissive means at least one
/// tracked process, strict means none, the hook is live exactly while
/// suppression is on, a dialog allowance only arises while suppression is
/// on, and the tracked process identifiers are unique.
pub open spec fn spec_wf(m: EngineModel) -> bool {
    &&& m.mode == KioskMode::Permissive ==> m.entries.len() > 0
    &&& m.mode == KioskMode::Strict ==> m.entries.len() == 0
    &&& m.hook_live <==> m.mode != KioskMode::Disabled
    &&& m.dialog_allowance ==> m.mode != KioskMode::Disabled
    &&& spec_entries_unique(m.entries)
}

/// The state of a freshly created engine: disabled, no hook, no
/// allowance, nothing tracked.
pub open spec fn spec_initial() -> EngineModel {
    EngineModel {
        mode: KioskMode::Disabled,
        dialog_allowance: false,
        hook_live: false,
        entries: Seq::empty(),
    }
}

/// The mode suppression settles in, given whether anything is tracked.
pub open spec fn spec_mode_for_entries(entries: Seq<LaunchedApp>) -> KioskMode {
    if entries.len() == 0 {
        KioskMode::Strict
    } else {
        KioskMode::Permissive
    }
}

/// The state after an enable request, `installed` saying whether the hook
/// install succeeded. With the hook already live the request is a no-op;
/// with the install failed the engine stays disabled.
pub open spec fn spec_enable(m: EngineModel, installed: bool) -> EngineModel {
    if m.hook_live {
        m
    } else if installed {
        EngineModel {
            mode: spec_mode_for_entries(m.entries),
            dialog_allowance: false,
            hook_live: true,
            entries: m.entries,
        }
    } else {
        m
    }
}

/// Whether an enable request succeeds: always with the hook already live,
/// otherwise exactly when the install did.
pub open spec fn spec_enable_ok(m: EngineModel, installed: bool) -> bool {
    m.hook_live || installed
}

/// The state after a disable request: the hook is released
/// unconditionally and the engine is disabled. The tracked processes
/// remain tracked.
pub open spec fn spec_disable(m: EngineModel) -> EngineModel {
    EngineModel {
        mode: KioskMode::Disabled,
        dialog_allowance: false,
        hook_live: false,
        entries: m.entries,
    }
}

/// The state after a managed application spawned: its identifier is
/// tracked, and while suppression is on the mode becomes permissive.
pub open spec fn spec_register_launch(m: EngineModel, pid: u32, launched_at: i64) -> EngineModel {
    EngineModel {
        mode: if m.mode == KioskMode::Disabled {
            KioskMode::Disabled
        } else {
            KioskMode::Permissive
        },
        dialog_allowance: m.dialog_allowance,
        hook_live: m.hook_live,
        entries: spec_insert_entry(m.entries, pid, launched_at),
    }
}

/// The state after a prune, `alive` holding one liveness verdict per
/// tracked entry, oldest first: dead entries leave, and while suppression
/// is on the mode follows the registry's new emptiness.
pub open spec fn spec_prune(m: EngineModel, alive: Seq<bool>) -> EngineModel {
    let entries = spec_filter_alive(m.entries, alive);
    EngineModel {
        mode: if m.mode == KioskMode::Disabled {
            KioskMode::Disabled
        } else {
            spec_mode_for_entries(entries)
        },
        dialog_allowance: m.dialog_allowance,
        hook_live: m.hook_live,
        entries,
    }
}

/// The state after a dialog-allowance request: while suppression is on
/// the allowance is set, without altering the mode; while disabled
/// nothing changes.
pub open spec fn spec_request_allowance(m: EngineModel) -> EngineModel {
    if m.mode == KioskMode::Disabled {
        m
    } else {
        EngineModel {
            mode: m.mode,
            dialog_allowance: true,
            hook_live: m.hook_live,
            entries: m.entries,
        }
    }
}

/// The state after the host window regains focus: while suppression is on
/// the allowance is cleared and the mode is recomputed from the
/// registry's current emptiness; while disabled nothing changes.
pub open spec fn spec_focus(m: EngineModel) -> EngineModel {
    if m.mode == KioskMode::Disabled {
        m
    } else {
        EngineModel {
            mode: spec_mode_for_entries(m.entries),
            dialog_allowance: false,
            hook_live: m.hook_live,
            entries: m.entries,
        }
    }
}

/// Asks whether a given process still exists. The OS-backed
/// implementation lives in the surrounding shell; a table-backed one
/// below serves deterministic use. The spec method names the verdict the
/// implementation answers with, so that pruning can be specified against
/// it.
pub trait ProcessLivenessInspector {
    /// The verdict for `pid`.
    spec fn alive_spec(&self, pid: u32) -> bool;

    /// Whether the process `pid` still exists.
    fn is_alive(&self, pid: u32) -> (r: bool)
        ensures
            r == self.alive_spec(pid);
}

/// A liveness inspector answering from a fixed table of live process
/// identifiers.
pub struct TableLivenessInspector {
    /// The identifiers considered alive.
    pub live: Vec<u32>,
}

impl ProcessLivenessInspector for TableLivenessInspector {
    open spec fn alive_spec(&self, pid: u32) -> bool {
        self.live@.contains(pid)
    }

    fn is_alive(&self, pid: u32) -> (r: bool)
        ensures
            r == self.alive_spec(pid),
    {
        let mut i: usize = 0;
        while i < self.live.len()
            invariant
                i <= self.live@.len(),
                forall|j: int| 0 <= j < i ==> self.live@[j] != pid,
            decreases self.live@.len() - i,
        {
            if self.live[i] == pid {
                return true;
            }
            i = i + 1;
        }
        false
    }
}

/// The liveness verdicts for a sequence of entries, oldest first.
pub open spec fn spec_alive_flags<I: ProcessLivenessInspector>(
    entries: Seq<LaunchedApp>,
    inspector: &I,
) -> Seq<bool> {
    Seq::new(entries.len(), |i: int| inspector.alive_spec(entries[i].process_id))
}

/// The kiosk enforcement engine: the one owner of the shared kiosk state.
#[verifier::ext_equal]
pub struct KioskEngine {
    /// The operating mode.
    pub mode: KioskMode,
    /// Whether a temporary dialog allowance is in force.
    pub dialog_allowance: bool,
    /// Whether the global input hook is installed.
    pub hook_live: bool,
    /// The launched processes the engine is responsible for.
    pub registry: LaunchedProcessRegistry,
}

impl KioskEngine {
    /// The mathematical state of the engine.
    pub open spec fn model(self) -> EngineModel {
        EngineModel {
            mode: self.mode,
            dialog_allowance: self.dialog_allowance,
            hook_live: self.hook_live,
            entries: self.registry.entries(),
        }
    }

    /// Well-formedness of the engine's state.
    pub open spec fn wf(self) -> bool {
        spec_wf(self.model())
    }

    /// A fresh engine: disabled, with nothing tracked.
    pub fn new() -> (r: Self)
        ensures
            r.model() == spec_initial(),
            r.wf(),
    {
        let r = KioskEngine {
            mode: KioskMode::Disabled,
            dialog_allowance: false,
            hook_live: false,
            registry: LaunchedProcessRegistry::new(),
        };
        proof {
            assert(r.model() =~= spec_initial());
        }
        r
    }

    /// Whether the global input hook is currently installed. The shell
    /// asks before attempting an install, so that at most one hook is
    /// ever live.
    pub fn hook_is_live(&self) -> (r: bool)
        ensures
            r == self.hook_live,
    {
        self.hook_live
    }

    /// Enables suppression, consuming the outcome of the hook install the
    /// shell attempted (none is needed when the hook is already live:
    /// the request is then an idempotent no-op). On a failed install the
    /// engine remains disabled rather than claiming success without a
    /// live hook.
    pub fn enable_suppression(&mut self, outcome: HookInstallOutcome) -> (r: Result<
        String,
        EngineError,
    >)
        requires
            old(self).wf(),
        ensures
            final(self).wf(),
            final(self).model() == spec_enable(old(self).model(), outcome is Installed),
            r is Ok <==> spec_enable_ok(old(self).model(), outcome is Installed),
            r matches Ok(t) ==> t@ == spec_enabled_message(),
            !old(self).hook_live ==> (outcome matches HookInstallOutcome::Failed(m) ==> r
                == Result::<String, EngineError>::Err(EngineError::HookInstallFailed(m))),
            !old(self).hook_live && outcome is Unsupported ==> r == Result::<
                String,
                EngineError,
            >::Err(EngineError::PlatformUnsupported),
    {
        if self.hook_live {
            proof {
                assert(self.model() =~= spec_enable(old(self).model(), outcome is Installed));
            }
            return Ok(String::from_str("kiosk suppression enabled"));
        }
        match outcome {
            HookInstallOutcome::Installed => {
                self.mode = if self.registry.is_empty() {
                    KioskMode::Strict
                } else {
                    KioskMode::Permissive
                };
                self.dialog_allowance = false;
                self.hook_live = true;
                proof {
                    assert(self.model() =~= spec_enable(old(self).model(), true));
                }
                Ok(String::from_str("kiosk suppression enabled"))
            },
            HookInstallOutcome::Failed(m) => {
                proof {
                    assert(self.model() =~= spec_enable(old(self).model(), false));
                }
                Err(EngineError::HookInstallFailed(m))
            },
            HookInstallOutcome::Unsupported => {
                proof {
                    assert(self.model() =~= spec_enable(old(self).model(), false));
                }
                Err(EngineError::PlatformUnsupported)
            },
        }
    }

    /// Disables suppression. The hook is released unconditionally; the
    /// tracked processes remain tracked.
    pub fn disable_suppression(&mut self) -> (r: Result<String, EngineError>)
        requires
            old(self).wf(),
        ensures
            final(self).wf(),
            final(self).model() == spec_disable(old(self).model()),
            r matches Ok(t) && t@ == spec_disabled_message(),
    {
        self.mode = KioskMode::Disabled;
        self.dialog_allowance = false;
        self.hook_live = false;
        proof {
            assert(self.model() =~= spec_disable(old(self).model()));
        }
        Ok(String::from_str("kiosk suppression disabled"))
    }

    /// Reports the current mode and how many managed applications are
    /// tracked.
    pub fn suppression_status(&self) -> (r: Result<String, EngineError>)
        ensures
            r matches Ok(t) && t@ == spec_status_text(self.mode, self.registry.entries().len() as int),
    {
        Ok(status_text(self.mode, self.registry.count()))
    }

    /// Validates a launch request before any spawn is attempted: the
    /// executable must exist at `path` (`exists` being the shell's
    /// answer). The engine's state is untouched.
    pub fn launch_precheck(&self, path: &str, exists: bool) -> (r: Result<(), EngineError>)
        ensures
            r is Ok <==> exists,
            r matches Err(e) ==> e matches EngineError::ExecutableNotFound(p) && p@ == path@,
    {
        if exists {
            Ok(())
        } else {
            Err(EngineError::ExecutableNotFound(String::from_str(path)))
        }
    }

    /// Consumes the outcome of the spawn the shell attempted after a
    /// successful precheck. A started process is tracked and, while
    /// suppression is on, the mode becomes permissive; a failed spawn
    /// changes nothing and surfaces the OS error.
    pub fn complete_launch(&mut self, outcome: SpawnOutcome, launched_at: i64) -> (r: Result<
        String,
        EngineError,
    >)
        requires
            old(self).wf(),
        ensures
            final(self).wf(),
            outcome matches SpawnOutcome::Spawned(pid) ==> final(self).model()
                == spec_register_launch(old(self).model(), pid, launched_at),
            outcome matches SpawnOutcome::Spawned(pid) ==> final(self).registry.spec_contains(
                pid,
            ),
            outcome matches SpawnOutcome::Spawned(pid) ==> (r matches Ok(t) && t@
                == spec_launch_message(pid as int)),
            outcome matches SpawnOutcome::Failed(m) ==> (final(self).model() == old(self).model()
                && r == Result::<String, EngineError>::Err(EngineError::SpawnFailed(m))),
    {
        match outcome {
            SpawnOutcome::Spawned(pid) => {
                self.registry.add(pid, launched_at);
                if self.mode != KioskMode::Disabled {
                    self.mode = KioskMode::Permissive;
                }
                proof {
                    lemma_insert_entry_unique(
                        old(self).model().entries,
                        pid,
                        launched_at,
                    );
                    assert(self.model() =~= spec_register_launch(
                        old(self).model(),
                        pid,
                        launched_at,
                    ));
                }
                let mut t = String::from_str("launched managed app (pid ");
                append_u64(&mut t, pid as u64);
                t.append(")");
                Ok(t)
            },
            SpawnOutcome::Failed(m) => {
                proof {
                    assert(self.model() =~= old(self).model());
                }
                Err(EngineError::SpawnFailed(m))
            },
        }
    }

    /// Prunes dead managed applications: asks the inspector about every
    /// tracked process, removes those reported gone, and, while
    /// suppression is on, settles the mode on the registry's new
    /// emptiness. Invoked on demand; nothing notifies the engine when a
    /// managed process exits.
    pub fn prune_dead_managed_apps<I: ProcessLivenessInspector>(&mut self, inspector: &I) -> (r:
        Result<String, EngineError>)
        requires
            old(self).wf(),
        ensures
            final(self).wf(),
            final(self).model() == spec_prune(
                old(self).model(),
                spec_alive_flags(old(self).model().entries, inspector),
            ),
            r matches Ok(t) && t@ == spec_prune_message(
                old(self).model().entries.len() - final(self).model().entries.len(),
                final(self).model().entries.len() as int,
            ),
    {
        let ghost entries0 = self.registry.entries();
        let mut alive: Vec<bool> = Vec::new();
        let mut i: usize = 0;
        let n = self.registry.count();
        while i < n
            invariant
                i <= n,
                n == self.registry.entries().len(),
                self == old(self),
                alive@.len() == i,
                forall|j: int|
                    0 <= j < i ==> alive@[j] == inspector.alive_spec(
                        #[trigger] self.registry.entries()[j].process_id,
                    ),
            decreases n - i,
        {
            let app = self.registry.get(i);
            alive.push(inspector.is_alive(app.process_id));
            i = i + 1;
        }
        proof {
            assert(alive@ =~= spec_alive_flags(entries0, inspector));
            lemma_filter_alive_len(entries0, alive@);
            lemma_filter_alive_sub_wf(entries0, alive@);
        }
        let (removed, remaining) = self.registry.prune_with(&alive);
        if self.mode != KioskMode::Disabled {
            self.mode = if remaining == 0 {
                KioskMode::Strict
            } else {
                KioskMode::Permissive
            };
        }
        proof {
            assert(self.model() =~= spec_prune(
                old(self).model(),
                spec_alive_flags(entries0, inspector),
            ));
        }
        let mut t = String::from_str("cleaned up ");
        append_u64(&mut t, removed as u64);
        t.append(" closed apps, ");
        append_u64(&mut t, remaining as u64);
        t.append(" still running");
        Ok(t)
    }

    /// Grants a temporary dialog allowance: suppression and chrome relax
    /// immediately, without altering the mode, until the host window
    /// regains focus. No timer ends it.
    pub fn request_dialog_allowance(&mut self) -> (r: Result<String, EngineError>)
        requires
            old(self).wf(),
        ensures
            final(self).wf(),
            final(self).model() == spec_request_allowance(old(self).model()),
            r matches Ok(t) && t@ == spec_allowance_message(),
    {
        if self.mode != KioskMode::Disabled {
            self.dialog_allowance = true;
        }
        proof {
            assert(self.model() =~= spec_request_allowance(old(self).model()));
        }
        Ok(String::from_str("dialog allowance enabled until the window regains focus"))
    }

    /// Consumes a window-focus-gained event: while suppression is on, any
    /// dialog allowance ends and the mode is recomputed from the
    /// registry's current emptiness.
    pub fn reconcile_chrome_for_focus(&mut self) -> (r: Result<String, EngineError>)
        requires
            old(self).wf(),
        ensures
            final(self).wf(),
            final(self).model() == spec_focus(old(self).model()),
            r matches Ok(t) && t@ == spec_status_text(
                final(self).mode,
                final(self).registry.entries().len() as int,
            ),
    {
        if self.mode != KioskMode::Disabled {
            self.dialog_allowance = false;
            self.mode = if self.registry.is_empty() {
                KioskMode::Strict
            } else {
                KioskMode::Permissive
            };
        }
        proof {
            assert(self.model() =~= spec_focus(old(self).model()));
        }
        Ok(status_text(self.mode, self.registry.count()))
    }

    /// The chrome the host window should currently have.
    pub fn chrome_state(&self) -> (r: WindowChromeState)
        ensures
            r == spec_chrome_for(self.mode, self.dialog_allowance),
    {
        chrome_for_mode(self.mode, self.dialog_allowance)
    }

    /// The decision for one key event, from the current snapshot of the
    /// shared state. This is the read-only path of the input callback: no
    /// allocation, no mutation.
    pub fn key_decision(&self, vk: u32, alt_pressed: bool) -> (r: KeyDecision)
        ensures
            r == spec_decide_key(
                self.mode,
                self.dialog_allowance,
                self.registry.entries().len() > 0,
                vk,
                alt_pressed,
            ),
    {
        let nonempty = !self.registry.is_empty();
        decide_key(self.mode, self.dialog_allowance, nonempty, vk, alt_pressed)
    }

    /// Whether the host window may close: only with suppression disabled
    /// and no managed application still registered. A registered
    /// application keeps the window open even after an explicit disable;
    /// that is deliberate, documented behaviour.
    pub fn may_close_host_window(&self) -> (r: bool)
        ensures
            r <==> (self.mode == KioskMode::Disabled && self.registry.entries().len() == 0),
    {
        self.mode == KioskMode::Disabled && self.registry.is_empty()
    }
}

/// The reply to a successful enable request.
pub open spec fn spec_enabled_message() -> Seq<char> {
    "kiosk suppression enabled"@
}

/// The reply to a disable request.
pub open spec fn spec_disabled_message() -> Seq<char> {
    "kiosk suppression disabled"@
}

/// The reply to a dialog-allowance request.
pub open spec fn spec_allowance_message() -> Seq<char> {
    "dialog allowance enabled until the window regains focus"@
}

/// The reply to a successful launch.
pub open spec fn spec_launch_message(pid: int) -> Seq<char> {
    "launched managed app (pid "@ + spec_u64_string(pid) + ")"@
}

/// The reply to a prune.
pub open spec fn spec_prune_message(removed: int, remaining: int) -> Seq<char> {
    "cleaned up "@ + spec_u64_string(removed) + " closed apps, "@ + spec_u64_string(remaining)
        + " still running"@
}

/// The status reply for a mode and a number of tracked applications.
pub open spec fn spec_status_text(mode: KioskMode, count: int) -> Seq<char> {
    match mode {
        KioskMode::Disabled => "suppression disabled"@,
        KioskMode::Strict => "strict kiosk mode, no managed apps running"@,
        KioskMode::Permissive => "permissive kiosk mode, "@ + spec_u64_string(count)
            + " managed apps running"@,
    }
}

/// Renders the status reply.
fn status_text(mode: KioskMode, count: usize) -> (r: String)
    ensures
        r@ == spec_status_text(mode, count as int),
{
    match mode {
        KioskMode::Disabled => String::from_str("suppression disabled"),
        KioskMode::Strict => String::from_str("strict kiosk mode, no managed apps running"),
        KioskMode::Permissive => {
            let mut t = String::from_str("permissive kiosk mode, ");
            append_u64(&mut t, count as u64);
            t.append(" managed apps running");
            t
        },
    }
}

/// Law: in every well-formed state with suppression on, the mode is
/// permissive exactly when the registry tracks at least one process.
/// (With suppression disabled the registry may be non-empty: an explicit
/// disable keeps the tracked processes.)
pub proof fn lemma_permissive_iff_tracked(m: EngineModel)
    requires
        spec_wf(m),
        m.mode != KioskMode::Disabled,
    ensures
        m.mode == KioskMode::Permissive <==> m.entries.len() > 0,
{
}

/// Law: the initial state is well-formed and every transition preserves
/// well-formedness, for every outcome the OS can produce.
pub proof fn lemma_transitions_preserve_wf(
    m: EngineModel,
    installed: bool,
    pid: u32,
    launched_at: i64,
    alive: Seq<bool>,
)
    requires
        spec_wf(m),
        alive.len() == m.entries.len(),
    ensures
        spec_wf(spec_initial()),
        spec_wf(spec_enable(m, installed)),
        spec_wf(spec_disable(m)),
        spec_wf(spec_register_launch(m, pid, launched_at)),
        spec_wf(spec_prune(m, alive)),
        spec_wf(spec_request_allowance(m)),
        spec_wf(spec_focus(m)),
{
    lemma_insert_entry_unique(m.entries, pid, launched_at);
    lemma_filter_alive_sub_wf(m.entries, alive);
}

/// Law: enabling suppression is idempotent. After one successful enable
/// the hook is live, and a second enable request, whatever its install
/// outcome, succeeds and leaves the state exactly as it was: there is
/// still exactly the one live hook.
pub proof fn lemma_enable_idempotent(m: EngineModel, second_installed: bool)
    requires
        !m.hook_live,
    ensures
        spec_enable(m, true).hook_live,
        spec_enable(spec_enable(m, true), second_installed) == spec_enable(m, true),
        spec_enable_ok(spec_enable(m, true), second_installed),
{
}

/// Law: pruning removes exactly the entries the inspector reported dead.
/// Of `n` tracked entries with `m_dead` reported dead, the pruned state
/// keeps `n - m_dead`, and it keeps precisely those entries whose
/// verdict was alive.
pub proof fn lemma_prune_correct(m: EngineModel, alive: Seq<bool>)
    requires
        spec_wf(m),
        alive.len() == m.entries.len(),
    ensures
        spec_prune(m, alive).entries.len() == spec_count_true(alive),
        m.entries.len() - spec_prune(m, alive).entries.len() == alive.len() - spec_count_true(
            alive,
        ),
        forall|x: LaunchedApp|
            spec_prune(m, alive).entries.contains(x) <==> exists|i: int|
                0 <= i < m.entries.len() && m.entries[i] == x && alive[i],
{
    lemma_filter_alive_len(m.entries, alive);
    assert forall|x: LaunchedApp|
        spec_prune(m, alive).entries.contains(x) <==> exists|i: int|
            0 <= i < m.entries.len() && m.entries[i] == x && alive[i] by {
        crate::registry::lemma_filter_alive_membership(m.entries, alive, x);
    }
}

} // verus!
