//! Backend selection and supervision. Each signal kind has a fixed priority
//! list of backends; the first one that can be constructed runs, one
//! iteration per poll period, until shutdown. Constructing, iterating and
//! waiting are done by the caller, which reports each outcome to
//! [`Supervisor::step`] and asks [`Supervisor::action`] what to do next.
use crate::config::Config;
use vstd::prelude::*;

verus! {

/// The two signals that are watched.
#[derive(Debug, Clone, Copy, PartialEq, Eq, Structural)]
pub enum WatcherType {
    Idle,
    ActiveWindow,
}

impl WatcherType {
    pub open spec fn poll_seconds(self, config: Config) -> u32 {
        match self {
            WatcherType::Idle => config.poll_time_idle,
            WatcherType::ActiveWindow => config.poll_time_window,
        }
    }

    /// Seconds between two iterations of this kind's backend.
    pub fn sleep_time(&self, config: &Config) -> (r: u32)
        ensures
            r == self.poll_seconds(*config),
    {
        match self {
            WatcherType::Idle => config.poll_time_idle,
            WatcherType::ActiveWindow => config.poll_time_window,
        }
    }

    /// The name of the signal, for messages.
    pub fn to_string(&self) -> (r: String)
        ensures
            r@ == (match self {
                WatcherType::Idle => "idle"@,
                WatcherType::ActiveWindow => "active window"@,
            }),
    {
        match self {
            WatcherType::Idle => String::from_str("idle"),
            WatcherType::ActiveWindow => String::from_str("active window"),
        }
    }
}

/// The platform sources of idle time and of the active window.
#[derive(Debug, Clone, Copy, PartialEq, Eq, Structural)]
pub enum Backend {
    WaylandExtIdleNotify,
    WaylandKdeIdle,
    X11ScreensaverIdle,
    GnomeIdle,
    WaylandForeignToplevel,
    KwinScriptWindow,
    X11Window,
    GnomeWindow,
}

impl Backend {
    /// The name of the backend, for messages.
    pub fn name(&self) -> &'static str {
        match self {
            Backend::WaylandExtIdleNotify => "Wayland idle (ext-idle-notify-v1)",
            Backend::WaylandKdeIdle => "Wayland idle (KDE)",
            Backend::X11ScreensaverIdle => "X11 idle (screensaver)",
            Backend::GnomeIdle => "Gnome idle (Mutter/IdleMonitor)",
            Backend::WaylandForeignToplevel => "Wayland window (wlr-foreign-toplevel-management-unstable-v1)",
            Backend::KwinScriptWindow => "KWin window (script)",
            Backend::X11Window => "X11 window",
            Backend::GnomeWindow => "Gnome window (extension)",
        }
    }
}

/// The backends of `kind`, most preferred first.
pub open spec fn candidates(kind: WatcherType) -> Seq<Backend> {
    match kind {
        WatcherType::Idle => seq![
            Backend::WaylandExtIdleNotify,
            Backend::WaylandKdeIdle,
            Backend::X11ScreensaverIdle,
            Backend::GnomeIdle,
        ],
        WatcherType::ActiveWindow => seq![
            Backend::WaylandForeignToplevel,
            Backend::KwinScriptWindow,
            Backend::X11Window,
            Backend::GnomeWindow,
        ],
    }
}

/// The backends of `kind`, most preferred first.
pub fn candidates_of(kind: WatcherType) -> (r: Vec<Backend>)
    ensures
        r@ == candidates(kind),
{
    match kind {
        WatcherType::Idle => vec![
            Backend::WaylandExtIdleNotify,
            Backend::WaylandKdeIdle,
            Backend::X11ScreensaverIdle,
            Backend::GnomeIdle,
        ],
        WatcherType::ActiveWindow => vec![
            Backend::WaylandForeignToplevel,
            Backend::KwinScriptWindow,
            Backend::X11Window,
            Backend::GnomeWindow,
        ],
    }
}

/// Where a supervisor is.
#[derive(Debug, Clone, Copy, PartialEq, Eq, Structural)]
pub enum SupervisorState {
    /// Trying the candidate at this position of the priority list.
    Probing { next: usize },
    /// Running the selected backend.
    Running { backend: Backend },
    /// No backend could be constructed: this kind is not watched.
    Disabled,
    /// Shut down.
    Stopped,
}

/// What happened since the last action.
#[derive(Debug, Clone, Copy, PartialEq, Eq, Structural)]
pub enum SupervisorEvent {
    Constructed,
    ConstructionFailed,
    IterationSucceeded,
    IterationFailed,
    IterationTimedOut,
    Shutdown,
}

/// What the caller does next.
#[derive(Debug, Clone, Copy, PartialEq, Eq, Structural)]
pub enum SupervisorAction {
    /// Construct this backend and report whether that worked.
    Construct { backend: Backend },
    /// Run one iteration of the running backend, abandoned after
    /// `timeout_seconds`, then wait `sleep_seconds` before the next one.
    Iterate { timeout_seconds: u32, sleep_seconds: u32 },
    /// Nothing more to do.
    Finish,
}

/// The state after `event` in `state`. Shutdown stops from anywhere; a
/// construction selects the candidate being tried, a failed one moves on to
/// the next candidate or disables the kind; iteration outcomes, whatever
/// they are, keep the backend running. Events that do not fit the state
/// change nothing.
pub open spec fn next_state(kind: WatcherType, state: SupervisorState, event: SupervisorEvent) -> SupervisorState {
    match event {
        SupervisorEvent::Shutdown => SupervisorState::Stopped,
        SupervisorEvent::Constructed => match state {
            SupervisorState::Probing { next } => SupervisorState::Running { backend: candidates(kind)[next as int] },
            _ => state,
        },
        SupervisorEvent::ConstructionFailed => match state {
            SupervisorState::Probing { next } => if next + 1 < candidates(kind).len() {
                SupervisorState::Probing { next: (next + 1) as usize }
            } else {
                SupervisorState::Disabled
            },
            _ => state,
        },
        _ => state,
    }
}

/// The action called for in `state`.
pub open spec fn action_of(kind: WatcherType, poll_seconds: u32, state: SupervisorState) -> SupervisorAction {
    match state {
        SupervisorState::Probing { next } => SupervisorAction::Construct { backend: candidates(kind)[next as int] },
        SupervisorState::Running { .. } => SupervisorAction::Iterate { timeout_seconds: poll_seconds, sleep_seconds: poll_seconds },
        _ => SupervisorAction::Finish,
    }
}

/// Selection and supervision of one signal kind's backend.
pub struct Supervisor {
    pub kind: WatcherType,
    pub poll_seconds: u32,
    pub state: SupervisorState,
}

impl Supervisor {
    pub open spec fn wf(&self) -> bool {
        match self.state {
            SupervisorState::Probing { next } => next < candidates(self.kind).len(),
            SupervisorState::Running { backend } => candidates(self.kind).contains(backend),
            _ => true,
        }
    }

    /// A supervisor about to try the most preferred backend of `kind`.
    pub fn new(kind: WatcherType, config: &Config) -> (r: Supervisor)
        ensures
            r.wf(),
            r.kind == kind,
            r.poll_seconds == kind.poll_seconds(*config),
            r.state == (SupervisorState::Probing { next: 0 }),
    {
        Supervisor { kind, poll_seconds: kind.sleep_time(config), state: SupervisorState::Probing { next: 0 } }
    }

    /// What to do next.
    pub fn action(&self) -> (r: SupervisorAction)
        requires
            self.wf(),
        ensures
            r == action_of(self.kind, self.poll_seconds, self.state),
    {
        match self.state {
            SupervisorState::Probing { next } => {
                let c = candidates_of(self.kind);
                SupervisorAction::Construct { backend: c[next] }
            },
            SupervisorState::Running { .. } => SupervisorAction::Iterate {
                timeout_seconds: self.poll_seconds,
                sleep_seconds: self.poll_seconds,
            },
            _ => SupervisorAction::Finish,
        }
    }

    /// Takes in what happened.
    pub fn step(&mut self, event: SupervisorEvent)
        requires
            old(self).wf(),
        ensures
            final(self).wf(),
            final(self).kind == old(self).kind,
            final(self).poll_seconds == old(self).poll_seconds,
            final(self).state == next_state(old(self).kind, old(self).state, event),
    {
        let c = candidates_of(self.kind);
        let next_state = match event {
            SupervisorEvent::Shutdown => SupervisorState::Stopped,
            SupervisorEvent::Constructed => match self.state {
                SupervisorState::Probing { next } => SupervisorState::Running { backend: c[next] },
                s => s,
            },
            SupervisorEvent::ConstructionFailed => match self.state {
                SupervisorState::Probing { next } => {
                    if next + 1 < c.len() {
                        SupervisorState::Probing { next: next + 1 }
                    } else {
                        SupervisorState::Disabled
                    }
                },
                s => s,
            },
            _ => self.state,
        };
        proof {
            if let SupervisorState::Probing { next } = self.state {
                if event == SupervisorEvent::Constructed {
                    assert(candidates(self.kind)[next as int] == c@[next as int]);
                }
            }
        }
        self.state = next_state;
    }
}

/// The state after reporting, from `state`, the construction outcomes
/// `results` in order (`true` for success).
pub open spec fn after_probes(kind: WatcherType, state: SupervisorState, results: Seq<bool>) -> SupervisorState
    decreases results.len(),
{
    if results.len() == 0 {
        state
    } else {
        let event = if results[0] {
            SupervisorEvent::Constructed
        } else {
            SupervisorEvent::ConstructionFailed
        };
        after_probes(kind, next_state(kind, state, event), results.drop_first())
    }
}

/// Probing selects the first candidate whose construction succeeds and
/// tries none after it; only when every candidate fails is the kind
/// disabled.
pub proof fn lemma_first_success_selected(kind: WatcherType, results: Seq<bool>)
    requires
        results.len() == candidates(kind).len(),
    ensures
        forall|j: int|
            0 <= j < results.len() && results[j] && (forall|i: int| 0 <= i < j ==> !results[i])
                ==> after_probes(kind, SupervisorState::Probing { next: 0 }, results)
                == (SupervisorState::Running { backend: candidates(kind)[j] }),
        (forall|i: int| 0 <= i < results.len() ==> !results[i])
            ==> after_probes(kind, SupervisorState::Probing { next: 0 }, results) == SupervisorState::Disabled,
{
    reveal_with_fuel(after_probes, 5);
    let r1 = results.drop_first();
    let r2 = r1.drop_first();
    let r3 = r2.drop_first();
    let r4 = r3.drop_first();
    assert(r1[0] == results[1]);
    assert(r2[0] == results[2]);
    assert(r3[0] == results[3]);
    assert(r4.len() == 0);
}

} // verus!
