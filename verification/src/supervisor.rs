//! The supervisor's shared state and its two lifecycle handlers.
//!
//! The host application keeps one `Supervisor` behind its lock and drives it
//! from two callback contexts: the startup hook reports how the spawn attempt
//! went, and the window system reports window events.  Each handler returns
//! the log lines to emit; storing the handle in the shared slot is the only
//! mutation either of them ever makes.

use vstd::prelude::*;
use vstd::string::*;
use crate::logs::{
    log_views, resolve_failure_lines, resolve_failure_logs, shutdown_line, spawn_error_prefix,
    spawn_failure_lines, spawn_failure_logs, success_line,
};

verus! {

/// What the supervisor keeps of the spawned child: the process id reported by
/// the host's spawn facility.  The live process object itself stays with the
/// host, which looks it up by this handle.
#[derive(Clone, Copy, PartialEq, Eq, Structural, Debug)]
pub struct BackendHandle {
    pub pid: u32,
}

/// How one startup attempt went: the host resolves the bundled executable,
/// then spawns it, and reports the first failure or the handle.
pub enum StartEvent {
    /// The bundled executable could not be resolved; the host's error text.
    ResolveFailed(String),
    /// The executable resolved but could not be spawned; the host's error text.
    SpawnFailed(String),
    /// The child is running under this handle.
    Spawned(BackendHandle),
}

/// A window event, reduced to what the supervisor reads of it: whether the
/// window was destroyed.
pub enum WindowEvent {
    /// The main window is gone.
    Destroyed,
    /// Any other window event; none of them concerns the supervisor.
    Other,
}

/// The shared application state: a single slot that holds the backend's
/// handle once one was stored.
pub struct Supervisor {
    pub backend: Option<BackendHandle>,
}

/// What one startup attempt does to the shared slot: an empty slot takes the
/// handle of a successful spawn; a filled slot is never overwritten, and no
/// event ever clears it.
pub open spec fn start_step(slot: Option<BackendHandle>, ev: StartEvent) -> Option<
    BackendHandle,
> {
    match slot {
        Some(h) => Some(h),
        None => match ev {
            StartEvent::Spawned(h) => Some(h),
            _ => None,
        },
    }
}

/// The log lines of one startup attempt: the success notice, or the
/// diagnostics of the failure; nothing when a handle is already stored, as a
/// repeated attempt is ignored.
pub open spec fn start_logs(slot: Option<BackendHandle>, ev: StartEvent) -> Seq<Seq<char>> {
    if slot is Some {
        Seq::empty()
    } else {
        match ev {
            StartEvent::ResolveFailed(e) => resolve_failure_lines(e@),
            StartEvent::SpawnFailed(e) => spawn_failure_lines(e@),
            StartEvent::Spawned(_) => seq![success_line()],
        }
    }
}

/// The log lines of one window event: exactly one shutdown notice for the
/// destroy event, nothing for any other.
pub open spec fn window_logs(ev: WindowEvent) -> Seq<Seq<char>> {
    match ev {
        WindowEvent::Destroyed => seq![shutdown_line()],
        WindowEvent::Other => Seq::empty(),
    }
}

impl Supervisor {
    /// A fresh session: no handle is stored before a spawn succeeds.
    pub fn new() -> (s: Self)
        ensures
            s.backend is None,
    {
        Supervisor { backend: None }
    }

    /// Applies one startup attempt: stores the handle of a successful spawn
    /// in the empty slot, leaves a filled slot untouched, leaves the slot
    /// empty on any failure, and returns exactly the lines to log.
    pub fn handle_start(&mut self, ev: StartEvent) -> (logs: Vec<String>)
        ensures
            final(self).backend == start_step(old(self).backend, ev),
            log_views(logs@) == start_logs(old(self).backend, ev),
    {
        if self.backend.is_some() {
            let logs: Vec<String> = Vec::new();
            proof {
                assert(log_views(logs@) =~= Seq::<Seq<char>>::empty());
            }
            return logs;
        }
        match ev {
            StartEvent::ResolveFailed(e) => resolve_failure_logs(e.as_str()),
            StartEvent::SpawnFailed(e) => spawn_failure_logs(e.as_str()),
            StartEvent::Spawned(h) => {
                self.backend = Some(h);
                let mut logs: Vec<String> = Vec::new();
                logs.push(String::from_str("[System] Sidecar Python iniciado com sucesso"));
                proof {
                    assert(log_views(logs@) =~= seq![success_line()]);
                }
                logs
            },
        }
    }

    /// Applies one window event and returns exactly the lines to log.  The
    /// contract reads the event alone: whether a backend is running has no
    /// bearing on what is logged.
    pub fn handle_window_event(&self, ev: &WindowEvent) -> (logs: Vec<String>)
        ensures
            log_views(logs@) == window_logs(*ev),
    {
        match ev {
            WindowEvent::Destroyed => {
                let mut logs: Vec<String> = Vec::new();
                logs.push(String::from_str("[System]: Encerrando Backend..."));
                proof {
                    assert(log_views(logs@) =~= seq![shutdown_line()]);
                }
                logs
            },
            WindowEvent::Other => {
                let logs: Vec<String> = Vec::new();
                proof {
                    assert(log_views(logs@) =~= Seq::<Seq<char>>::empty());
                }
                logs
            },
        }
    }
}

/// The slot after a whole sequence of startup attempts, applied in order.
pub open spec fn run_start(slot: Option<BackendHandle>, evs: Seq<StartEvent>) -> Option<
    BackendHandle,
>
    decreases evs.len(),
{
    if evs.len() == 0 {
        slot
    } else {
        run_start(start_step(slot, evs[0]), evs.drop_first())
    }
}

/// Single-spawn law: once a handle sits in the shared slot, no sequence of
/// further startup attempts replaces or clears it.  Together with
/// `start_step` — which fills an empty slot only from a successful spawn —
/// at most one handle is ever stored within a session.
pub proof fn lemma_single_spawn(slot: Option<BackendHandle>, evs: Seq<StartEvent>)
    requires
        slot is Some,
    ensures
        run_start(slot, evs) == slot,
    decreases evs.len(),
{
    if evs.len() > 0 {
        lemma_single_spawn(start_step(slot, evs[0]), evs.drop_first());
    }
}

/// The handle of the first successful spawn in a sequence of startup
/// attempts, if there is one.
pub open spec fn first_spawned(evs: Seq<StartEvent>) -> Option<BackendHandle>
    decreases evs.len(),
{
    if evs.len() == 0 {
        None
    } else {
        match evs[0] {
            StartEvent::Spawned(h) => Some(h),
            _ => first_spawned(evs.drop_first()),
        }
    }
}

/// Single-spawn law, second half: within one session the slot ends up
/// holding exactly the handle of the first successful spawn — failures
/// before it leave the slot empty, and nothing after it is ever stored.
pub proof fn lemma_first_spawn_wins(evs: Seq<StartEvent>)
    ensures
        run_start(None, evs) == first_spawned(evs),
    decreases evs.len(),
{
    if evs.len() > 0 {
        match evs[0] {
            StartEvent::Spawned(h) => {
                lemma_single_spawn(Some(h), evs.drop_first());
            },
            _ => {
                lemma_first_spawn_wins(evs.drop_first());
            },
        }
    }
}

/// Spawn-failure isolation law: a spawn failure leaves the empty slot empty
/// and emits three pairwise distinct diagnostic lines — the error itself and
/// the two remediation hints.
pub proof fn lemma_spawn_failure_isolation(e: String)
    ensures
        start_step(None, StartEvent::SpawnFailed(e)) is None,
        start_logs(None, StartEvent::SpawnFailed(e)) == spawn_failure_lines(e@),
        spawn_failure_lines(e@).len() == 3,
        spawn_failure_lines(e@)[0] != spawn_failure_lines(e@)[1],
        spawn_failure_lines(e@)[0] != spawn_failure_lines(e@)[2],
        spawn_failure_lines(e@)[1] != spawn_failure_lines(e@)[2],
{
    let err = e@;
    reveal_strlit("[Erro] Falha ao iniciar sidecar: ");
    reveal_strlit("[Erro] Verifique se o binário está em src-tauri/binaries/");
    reveal_strlit("[Erro] Execute: pnpm compile:sidecar");
    assert((spawn_error_prefix() + err)[7] == 'F');
    assert(spawn_failure_lines(err)[1][7] == 'V');
    assert(spawn_failure_lines(err)[2][7] == 'E');
}

/// Window-destroy law: the destroy event yields exactly one shutdown-intent
/// line, and no other window event yields any.
pub proof fn lemma_window_destroy_logging(ev: WindowEvent)
    ensures
        window_logs(ev).len() == 1 <==> ev is Destroyed,
        ev is Destroyed ==> window_logs(ev) == seq![shutdown_line()],
{
}

} // verus!
