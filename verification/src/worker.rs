//! The worker that owns all probing and actions, one at a time. It is a
//! state machine: the caller performs each `Request` and each `Effect` and
//! hands back the answer as an `Event`.
use vstd::prelude::*;
use vstd::string::*;
use crate::config::{BOOT_POLLS, BOOT_POLL_MS, CDP_PORT, LOOP_POLLS, LOOP_POLL_MS, MCP_PORT, REFRESH_INTERVAL_MS, STOP_SETTLE_MS};
use crate::model::{self, missing_tooltip, online_tooltip, plain_tooltip, transition, Outcome};
use crate::net::Port;
use crate::notes::Note;
use crate::smolvm::{Background, Command, GuestLoop, Smol};
use crate::state::{Health, ServicePhase, UiState, UiStateView, UserAction, WorkerMsg};
use crate::text::{append_decimal, decimal};

verus! {

/// Where the worker is in its work: what it has asked for and waits on.
#[derive(Debug)]
pub enum Op {
    /// Waiting for a user message (or the receive timeout).
    Idle,
    /// The worker has ended.
    Finished,
    /// A timer refresh is over; waiting for the clock to stamp it.
    AwaitClock,
    /// Refresh: waiting for the VM status.
    RefreshVm { timed: bool },
    /// Refresh: waiting for the MCP port probe.
    RefreshMcpPort { timed: bool },
    /// Refresh: waiting for the CDP port probe.
    RefreshCdpPort { timed: bool, mcp_port: bool },
    /// Refresh: waiting for the MCP (kite) loop probe.
    RefreshMcpLoop { timed: bool, mcp_port: bool, cdp_port: bool },
    /// Refresh: waiting for the CDP loop probe.
    RefreshCdpLoop { timed: bool, mcp_port: bool, cdp_port: bool, mcp_loop: bool },
    /// Toggle: waiting for the VM status that decides start or stop.
    ToggleStatus,
    /// Chromium restart: waiting for the VM status.
    RestartStatus,
    /// Chromium restart: waiting for the kill command.
    RestartExec,
    /// Autostart toggle: waiting for the VM status of the display state.
    AutostartBuffer,
    /// Start-all: waiting for the status that tells whether the machine exists.
    EnsureExists,
    /// Start-all: waiting for the location of the machine bundle.
    EnsurePack,
    /// Start-all: waiting for the VM status of the display state.
    EnsureBuffer,
    /// Start-all: waiting for the machine creation from `pack`.
    EnsureCreate { pack: String },
    /// Start-all: waiting for the status after the creation.
    EnsureRecheck,
    /// Start-all: waiting for the VM status before starting it.
    VmCheck,
    /// Start-all: waiting for the published-port update.
    VmUpdate,
    /// Start-all: pausing before boot poll `round`.
    VmSleep { round: u8 },
    /// Start-all: waiting for the VM status of boot poll `round`.
    VmPoll { round: u8 },
    /// Start-all: waiting for the probe of guest loop `which`.
    LoopCheck { which: GuestLoop },
    /// Start-all: pausing before loop poll `round`.
    LoopSleep { which: GuestLoop, round: u8 },
    /// Start-all: waiting for the probe of loop poll `round`.
    LoopPoll { which: GuestLoop, round: u8 },
    /// Stop-all: waiting for `machine stop`.
    StopRun,
    /// Stop-all: pausing after the stop.
    StopSleep,
    /// Start-all or stop-all is over: waiting for the clock to stamp the end.
    StampSettled,
}

/// An answer to what the worker asked for.
#[derive(Debug)]
pub enum Event {
    /// A message arrived; it was sent when the monotonic clock read this many ms.
    Message(WorkerMsg, u64),
    /// No message within the receive window; the monotonic clock reads this many ms.
    Timeout(u64),
    /// Every sender is gone.
    Disconnected,
    /// The monotonic clock reads this many ms.
    Clock(u64),
    /// The combined output of a captured command: what it printed before it
    /// ended or was killed at its time budget; empty when it could not be started.
    Output(String),
    /// The result of a port probe.
    Probe(bool),
    /// The pause is over.
    Slept,
    /// The machine bundle, when one was found.
    Pack(Option<String>),
}

/// What the worker asks for next.
#[derive(Debug)]
pub enum Request {
    /// Wait for a message, at most `RECV_TIMEOUT_MS`.
    NextMessage,
    /// Read the monotonic clock.
    Clock,
    /// Run a command and capture its output.
    Run(Command),
    /// Probe a host port, over HTTP when the flag is set, else connect-only.
    Probe(Port, bool),
    /// Pause this many ms.
    Sleep(u64),
    /// Find the machine bundle.
    LocatePack,
    /// The worker has ended.
    Finish,
}

/// A page the tray opens in the browser.
#[derive(Debug, Clone, Copy, PartialEq, Eq, Structural)]
pub enum Page {
    /// The CDP chromium console.
    Cdp,
    /// The MCP endpoint.
    Mcp,
}

impl Page {
    /// The URL of the page.
    pub open spec fn spec_url(self) -> Seq<char> {
        match self {
            Page::Cdp => "http://127.0.0.1:"@ + decimal(CDP_PORT as nat),
            Page::Mcp => "http://127.0.0.1:"@ + decimal(MCP_PORT as nat) + "/mcp"@,
        }
    }

    /// The URL of the page.
    pub fn url(self) -> (u: String)
        ensures
            u@ == self.spec_url(),
    {
        let mut u = String::from_str("http://127.0.0.1:");
        match self {
            Page::Cdp => {
                append_decimal(&mut u, CDP_PORT as u64);
            },
            Page::Mcp => {
                append_decimal(&mut u, MCP_PORT as u64);
                u.append("/mcp");
            },
        }
        u
    }
}

/// Something the worker does on the way, with no answer awaited.
#[derive(Debug)]
pub enum Effect {
    /// Write a log line.
    Log(Note),
    /// Send a UI update.
    Push(UiState),
    /// Open a page in the browser.
    Open(Page),
    /// Open the folder of the log file (`Logger::folder`).
    OpenLogDir,
    /// Switch autostart on or off.
    SetAutostart(bool),
    /// Quit the UI event loop.
    ExitUi,
    /// Spawn a detached command.
    Spawn(Background),
}

/// The mathematical content of an `Effect`.
pub enum EffectView {
    Log(Note),
    Push(UiStateView),
    Open(Page),
    OpenLogDir,
    SetAutostart(bool),
    ExitUi,
    Spawn(Background),
}

impl View for Effect {
    type V = EffectView;

    open spec fn view(&self) -> EffectView {
        match self {
            Effect::Log(n) => EffectView::Log(*n),
            Effect::Push(s) => EffectView::Push(s@),
            Effect::Open(p) => EffectView::Open(*p),
            Effect::OpenLogDir => EffectView::OpenLogDir,
            Effect::SetAutostart(b) => EffectView::SetAutostart(*b),
            Effect::ExitUi => EffectView::ExitUi,
            Effect::Spawn(b) => EffectView::Spawn(*b),
        }
    }
}

/// The content of each effect.
pub open spec fn effects_view(s: Seq<Effect>) -> Seq<EffectView> {
    s.map_values(|e: Effect| e@)
}

/// What one step produces: effects to perform in order, then the next request.
pub struct Step {
    pub effects: Vec<Effect>,
    pub request: Request,
}

/// The state of the worker.
pub struct WorkerView {
    pub phase: ServicePhase,
    pub autostart_cached: bool,
    pub cancel: bool,
    pub last: Option<UiStateView>,
    pub last_refresh_ms: Option<u64>,
    pub settled_ms: Option<u64>,
    pub http_probe: bool,
    pub op: Op,
}

/// The worker: one operation at a time, so probes never pile up.
pub struct Worker {
    phase: ServicePhase,
    autostart_cached: bool,
    cancel: bool,
    last: Option<UiState>,
    last_refresh_ms: Option<u64>,
    settled_ms: Option<u64>,
    http_probe: bool,
    op: Op,
    smol: Smol,
}

/// The content of an optional UI state.
pub open spec fn opt_state_view(s: Option<UiState>) -> Option<UiStateView> {
    match s {
        Some(x) => Some(x@),
        None => None,
    }
}

/// The outcome a step reports: the worker after it, the effects, the request.
pub open spec fn outcome_of(w: WorkerView, s: Step) -> Outcome {
    (w, effects_view(s.effects@), s.request)
}

impl View for Worker {
    type V = WorkerView;

    closed spec fn view(&self) -> WorkerView {
        WorkerView {
            phase: self.phase,
            autostart_cached: self.autostart_cached,
            cancel: self.cancel,
            last: opt_state_view(self.last),
            last_refresh_ms: self.last_refresh_ms,
            settled_ms: self.settled_ms,
            http_probe: self.http_probe,
            op: self.op,
        }
    }
}

fn plain_tooltip_string() -> (s: String)
    ensures
        s@ == plain_tooltip(),
{
    String::from_str("smolvm 服务台")
}

fn missing_tooltip_string() -> (s: String)
    ensures
        s@ == missing_tooltip(),
{
    String::from_str("缺机器：请放 kite.smolvmachine 在托盘旁或设 SMOLVM_TRAY_PACK")
}

/// The tooltip after a refresh with `up` checks up.
pub fn online_tooltip_string(up: usize) -> (s: String)
    ensures
        s@ == online_tooltip(up as nat),
{
    let mut s = String::from_str("smolvm 服务台 · ");
    append_decimal(&mut s, up as u64);
    s.append("/");
    append_decimal(&mut s, Health::TOTAL as u64);
    s.append(" 在线");
    s
}

impl Worker {
    /// A worker waiting for its first message: phase Idle, no UI state yet,
    /// the autostart setting as read at launch, and the probe kind.
    pub fn new(smol: Smol, autostart_cached: bool, http_probe: bool) -> (w: Worker)
        ensures
            w@ == (WorkerView {
                phase: ServicePhase::Idle,
                autostart_cached,
                cancel: false,
                last: None,
                last_refresh_ms: None,
                settled_ms: None,
                http_probe,
                op: Op::Idle,
            }),
            w.spec_smol() == smol,
    {
        Worker {
            phase: ServicePhase::Idle,
            autostart_cached,
            cancel: false,
            last: None,
            last_refresh_ms: None,
            settled_ms: None,
            http_probe,
            op: Op::Idle,
            smol,
        }
    }

    /// The command line the worker's requests run through.
    pub closed spec fn spec_smol(&self) -> Smol {
        self.smol
    }

    /// The command line the worker's requests run through.
    pub fn smol(&self) -> (s: &Smol)
        ensures
            *s == self.spec_smol(),
    {
        &self.smol
    }

    /// What the worker waits for now.
    pub fn pending(&self) -> (r: Request)
        ensures
            r == model::pending(self@),
    {
        match &self.op {
            Op::Idle => Request::NextMessage,
            Op::Finished => Request::Finish,
            Op::AwaitClock => Request::Clock,
            Op::RefreshVm { .. } => Request::Run(Command::Status),
            Op::RefreshMcpPort { .. } => Request::Probe(Port::Mcp, self.http_probe),
            Op::RefreshCdpPort { .. } => Request::Probe(Port::Cdp, self.http_probe),
            Op::RefreshMcpLoop { .. } => Request::Run(Command::LoopProbe(GuestLoop::Kite)),
            Op::RefreshCdpLoop { .. } => Request::Run(Command::LoopProbe(GuestLoop::Cdp)),
            Op::ToggleStatus => Request::Run(Command::Status),
            Op::RestartStatus => Request::Run(Command::Status),
            Op::RestartExec => Request::Run(Command::RestartChromium),
            Op::AutostartBuffer => Request::Run(Command::Status),
            Op::EnsureExists => Request::Run(Command::Status),
            Op::EnsurePack => Request::LocatePack,
            Op::EnsureBuffer => Request::Run(Command::Status),
            Op::EnsureCreate { pack } => Request::Run(Command::CreateFromPack(pack.clone())),
            Op::EnsureRecheck => Request::Run(Command::Status),
            Op::VmCheck => Request::Run(Command::Status),
            Op::VmUpdate => Request::Run(Command::UpdatePorts),
            Op::VmSleep { .. } => Request::Sleep(BOOT_POLL_MS),
            Op::VmPoll { .. } => Request::Run(Command::Status),
            Op::LoopCheck { which } => Request::Run(Command::LoopProbe(*which)),
            Op::LoopSleep { .. } => Request::Sleep(LOOP_POLL_MS),
            Op::LoopPoll { which, .. } => Request::Run(Command::LoopProbe(*which)),
            Op::StopRun => Request::Run(Command::Stop),
            Op::StopSleep => Request::Sleep(STOP_SETTLE_MS),
            Op::StampSettled => Request::Clock,
        }
    }

    fn go(&mut self, effects: Vec<Effect>, op: Op) -> (s: Step)
        ensures
            outcome_of(final(self)@, s) == model::go(old(self)@, effects_view(effects@), op),
            final(self).spec_smol() == old(self).spec_smol(),
    {
        self.op = op;
        let request = self.pending();
        Step { effects, request }
    }

    fn stay(&self) -> (s: Step)
        ensures
            outcome_of(self@, s) == model::stay(self@),
    {
        let s = Step { effects: Vec::new(), request: self.pending() };
        assert(effects_view(s.effects@) =~= Seq::<EffectView>::empty());
        s
    }

    fn done(&mut self, effects: Vec<Effect>) -> (s: Step)
        ensures
            outcome_of(final(self)@, s) == model::done(old(self)@, effects_view(effects@)),
            final(self).spec_smol() == old(self).spec_smol(),
    {
        self.cancel = false;
        self.go(effects, Op::Idle)
    }

    fn push_effect(effects: &mut Vec<Effect>, e: Effect)
        ensures
            effects_view(final(effects)@) == effects_view(old(effects)@).push(e@),
    {
        effects.push(e);
        assert(effects_view(effects@) =~= effects_view(old(effects)@).push(e@));
    }

    fn set_phase(&mut self, p: ServicePhase, effects: &mut Vec<Effect>)
        ensures
            final(self)@ == model::set_phase(old(self)@, p).0,
            effects_view(final(effects)@) == effects_view(old(effects)@) + model::set_phase(
                old(self)@,
                p,
            ).1,
            final(self).spec_smol() == old(self).spec_smol(),
    {
        let mut st = match &self.last {
            Some(s) => s.duplicate(),
            None => UiState {
                health: Health::all_down(),
                tooltip: plain_tooltip_string(),
                autostart_checked: self.autostart_cached,
                phase: p,
            },
        };
        st.phase = p;
        self.phase = p;
        self.last = Some(st.duplicate());
        let ghost e0 = effects_view(effects@);
        Self::push_effect(effects, Effect::Log(Note::Phase(p)));
        Self::push_effect(effects, Effect::Push(st));
        assert(effects_view(effects@) =~= e0 + model::set_phase(old(self)@, p).1);
    }

    fn refresh_start(&mut self, effects: Vec<Effect>, timed: bool) -> (s: Step)
        ensures
            outcome_of(final(self)@, s) == model::refresh_start(
                old(self)@,
                effects_view(effects@),
                timed,
            ),
            final(self).spec_smol() == old(self).spec_smol(),
    {
        self.go(effects, Op::RefreshVm { timed })
    }

    fn refresh_end(&mut self, effects: Vec<Effect>, h: Health, timed: bool) -> (s: Step)
        ensures
            outcome_of(final(self)@, s) == model::refresh_end(
                old(self)@,
                effects_view(effects@),
                h,
                timed,
            ),
            final(self).spec_smol() == old(self).spec_smol(),
    {
        let st = UiState {
            health: h,
            tooltip: online_tooltip_string(h.up()),
            autostart_checked: self.autostart_cached,
            phase: self.phase,
        };
        self.last = Some(st.duplicate());
        let mut effects = effects;
        let ghost e0 = effects_view(effects@);
        Self::push_effect(&mut effects, Effect::Push(st));
        Self::push_effect(&mut effects, Effect::Log(Note::Refreshed(h)));
        if timed {
            self.go(effects, Op::AwaitClock)
        } else {
            self.done(effects)
        }
    }

    fn start_all(&mut self, effects: Vec<Effect>) -> (s: Step)
        ensures
            outcome_of(final(self)@, s) == model::start_all(old(self)@, effects_view(effects@)),
            final(self).spec_smol() == old(self).spec_smol(),
    {
        let mut effects = effects;
        self.set_phase(ServicePhase::Starting, &mut effects);
        self.go(effects, Op::EnsureExists)
    }

    fn stop_all(&mut self, effects: Vec<Effect>) -> (s: Step)
        ensures
            outcome_of(final(self)@, s) == model::stop_all(old(self)@, effects_view(effects@)),
            final(self).spec_smol() == old(self).spec_smol(),
    {
        let mut effects = effects;
        self.set_phase(ServicePhase::Stopping, &mut effects);
        let ghost e1 = effects_view(effects@);
        Self::push_effect(&mut effects, Effect::Log(Note::StoppingAll));
        assert(effects_view(effects@) =~= e1 + seq![EffectView::Log(Note::StoppingAll)]);
        self.go(effects, Op::StopRun)
    }

    fn after_loop(&mut self, effects: Vec<Effect>, which: GuestLoop) -> (s: Step)
        ensures
            outcome_of(final(self)@, s) == model::after_loop(
                old(self)@,
                effects_view(effects@),
                which,
            ),
            final(self).spec_smol() == old(self).spec_smol(),
    {
        match which {
            GuestLoop::Cdp => self.go(effects, Op::LoopCheck { which: GuestLoop::Kite }),
            GuestLoop::Kite => {
                let mut effects = effects;
                Self::push_effect(&mut effects, Effect::Log(Note::StartAllFinished));
                self.go(effects, Op::StampSettled)
            },
        }
    }

    fn handle(&mut self, effects: Vec<Effect>, a: UserAction) -> (s: Step)
        ensures
            outcome_of(final(self)@, s) == model::handle(old(self)@, effects_view(effects@), a),
            final(self).spec_smol() == old(self).spec_smol(),
    {
        let mut effects = effects;
        match a {
            UserAction::ToggleService => self.go(effects, Op::ToggleStatus),
            UserAction::InitialStart => self.start_all(effects),
            UserAction::OpenCdp => {
                Self::push_effect(&mut effects, Effect::Open(Page::Cdp));
                self.done(effects)
            },
            UserAction::OpenMcp => {
                Self::push_effect(&mut effects, Effect::Open(Page::Mcp));
                self.done(effects)
            },
            UserAction::RestartChromium => self.go(effects, Op::RestartStatus),
            UserAction::OpenLogs => {
                Self::push_effect(&mut effects, Effect::OpenLogDir);
                self.done(effects)
            },
            UserAction::ToggleAutostart => {
                let on = !self.autostart_cached;
                self.autostart_cached = on;
                let ghost e0 = effects_view(effects@);
                Self::push_effect(&mut effects, Effect::SetAutostart(on));
                Self::push_effect(&mut effects, Effect::Log(Note::Autostart(on)));
                assert(effects_view(effects@) =~= e0 + seq![
                    EffectView::SetAutostart(on),
                    EffectView::Log(Note::Autostart(on)),
                ]);
                match &self.last {
                    Some(s) => {
                        let mut st = s.duplicate();
                        st.autostart_checked = on;
                        Self::push_effect(&mut effects, Effect::Push(st));
                        self.done(effects)
                    },
                    None => self.go(effects, Op::AutostartBuffer),
                }
            },
            UserAction::Exit => {
                let ghost e0 = effects_view(effects@);
                Self::push_effect(&mut effects, Effect::Log(Note::ExitRequested));
                Self::push_effect(&mut effects, Effect::ExitUi);
                assert(effects_view(effects@) =~= e0 + seq![
                    EffectView::Log(Note::ExitRequested),
                    EffectView::ExitUi,
                ]);
                self.cancel = false;
                self.op = Op::Finished;
                Step { effects, request: Request::Finish }
            },
        }
    }

    fn on_message(&mut self, a: UserAction, sent_ms: u64) -> (s: Step)
        ensures
            outcome_of(final(self)@, s) == model::on_message(old(self)@, a, sent_ms),
            final(self).spec_smol() == old(self).spec_smol(),
    {
        let mut effects: Vec<Effect> = Vec::new();
        let queued = match self.settled_ms {
            Some(t) => sent_ms < t,
            None => false,
        };
        if a == UserAction::ToggleService && (self.phase != ServicePhase::Idle || queued) {
            Self::push_effect(&mut effects, Effect::Log(Note::ToggleDropped));
            assert(effects_view(effects@) =~= seq![EffectView::Log(Note::ToggleDropped)]);
            self.go(effects, Op::Idle)
        } else {
            self.cancel = true;
            Self::push_effect(&mut effects, Effect::Log(Note::Action(a)));
            assert(effects_view(effects@) =~= seq![EffectView::Log(Note::Action(a))]);
            self.handle(effects, a)
        }
    }

    fn on_timeout(&mut self, now: u64) -> (s: Step)
        ensures
            outcome_of(final(self)@, s) == model::on_timeout(old(self)@, now),
            final(self).spec_smol() == old(self).spec_smol(),
    {
        let due = match self.last_refresh_ms {
            None => true,
            Some(t) => t <= now && now - t >= REFRESH_INTERVAL_MS,
        };
        let effects: Vec<Effect> = Vec::new();
        assert(effects_view(effects@) =~= Seq::<EffectView>::empty());
        if due {
            if !self.cancel {
                self.refresh_start(effects, true)
            } else {
                self.last_refresh_ms = Some(now);
                self.go(effects, Op::Idle)
            }
        } else {
            self.stay()
        }
    }

    #[verifier::spinoff_prover]
    fn step_waiting(&mut self, event: Event) -> (s: Step)
        requires
            old(self)@.op is Idle || old(self)@.op is Finished || old(self)@.op is AwaitClock,
        ensures
            outcome_of(final(self)@, s) == transition(old(self)@, event),
            final(self).spec_smol() == old(self).spec_smol(),
    {
        let mut effects: Vec<Effect> = Vec::new();
        assert(effects_view(effects@) =~= Seq::<EffectView>::empty());
        match &self.op {
            Op::Idle => match event {
                Event::Message(WorkerMsg::Act(a), sent_ms) => self.on_message(a, sent_ms),
                Event::Timeout(now) => self.on_timeout(now),
                Event::Disconnected => self.go(effects, Op::Finished),
                _ => self.stay(),
            },
            Op::Finished => self.stay(),
            Op::AwaitClock => match event {
                Event::Clock(now) => {
                    self.last_refresh_ms = Some(now);
                    self.go(effects, Op::Idle)
                },
                _ => self.stay(),
            },
            _ => self.stay(),
        }
    }
    #[verifier::spinoff_prover]
    fn step_refresh(&mut self, event: Event) -> (s: Step)
        requires
            old(self)@.op is RefreshVm || old(self)@.op is RefreshMcpPort || old(self)@.op is RefreshCdpPort || old(self)@.op is RefreshMcpLoop || old(self)@.op is RefreshCdpLoop,
        ensures
            outcome_of(final(self)@, s) == transition(old(self)@, event),
            final(self).spec_smol() == old(self).spec_smol(),
    {
        let mut effects: Vec<Effect> = Vec::new();
        assert(effects_view(effects@) =~= Seq::<EffectView>::empty());
        match &self.op {
            Op::RefreshVm { timed } => {
                let timed = *timed;
                match event {
                    Event::Output(o) => if Smol::status(o.as_str()) == crate::smolvm::VmState::Running {
                        self.go(effects, Op::RefreshMcpPort { timed })
                    } else {
                        self.refresh_end(effects, Health::all_down(), timed)
                    },
                    _ => self.stay(),
                }
            },
            Op::RefreshMcpPort { timed } => {
                let timed = *timed;
                match event {
                    Event::Probe(b) => self.go(effects, Op::RefreshCdpPort { timed, mcp_port: b }),
                    _ => self.stay(),
                }
            },
            Op::RefreshCdpPort { timed, mcp_port } => {
                let (timed, mcp_port) = (*timed, *mcp_port);
                match event {
                    Event::Probe(b) => self.go(
                        effects,
                        Op::RefreshMcpLoop { timed, mcp_port, cdp_port: b },
                    ),
                    _ => self.stay(),
                }
            },
            Op::RefreshMcpLoop { timed, mcp_port, cdp_port } => {
                let (timed, mcp_port, cdp_port) = (*timed, *mcp_port, *cdp_port);
                match event {
                    Event::Output(o) => {
                        let mcp_loop = Smol::loop_probe(o.as_str());
                        self.go(effects, Op::RefreshCdpLoop { timed, mcp_port, cdp_port, mcp_loop })
                    },
                    _ => self.stay(),
                }
            },
            Op::RefreshCdpLoop { timed, mcp_port, cdp_port, mcp_loop } => {
                let (timed, mcp_port, cdp_port, mcp_loop) = (*timed, *mcp_port, *cdp_port, *mcp_loop);
                match event {
                    Event::Output(o) => {
                        let cdp_loop = Smol::loop_probe(o.as_str());
                        let h = Health { vm: true, mcp_port, mcp_loop, cdp_port, cdp_loop };
                        self.refresh_end(effects, h, timed)
                    },
                    _ => self.stay(),
                }
            },
            _ => self.stay(),
        }
    }
    #[verifier::spinoff_prover]
    fn step_action(&mut self, event: Event) -> (s: Step)
        requires
            old(self)@.op is ToggleStatus || old(self)@.op is RestartStatus || old(self)@.op is RestartExec || old(self)@.op is AutostartBuffer,
        ensures
            outcome_of(final(self)@, s) == transition(old(self)@, event),
            final(self).spec_smol() == old(self).spec_smol(),
    {
        let mut effects: Vec<Effect> = Vec::new();
        assert(effects_view(effects@) =~= Seq::<EffectView>::empty());
        match &self.op {
            Op::ToggleStatus => match event {
                Event::Output(o) => if Smol::status(o.as_str()) == crate::smolvm::VmState::Running {
                    self.stop_all(effects)
                } else {
                    self.start_all(effects)
                },
                _ => self.stay(),
            },
            Op::RestartStatus => match event {
                Event::Output(o) => if Smol::status(o.as_str()) == crate::smolvm::VmState::Running {
                    self.go(effects, Op::RestartExec)
                } else {
                    Self::push_effect(&mut effects, Effect::Log(Note::RestartSkipped));
                    self.done(effects)
                },
                _ => self.stay(),
            },
            Op::RestartExec => match event {
                Event::Output(o) => {
                    Self::push_effect(&mut effects, Effect::Log(Note::RestartDone(o)));
                    self.done(effects)
                },
                _ => self.stay(),
            },
            Op::AutostartBuffer => match event {
                Event::Output(o) => {
                    let vm = Smol::status(o.as_str()) == crate::smolvm::VmState::Running;
                    let st = self.buffer_state(vm);
                    Self::push_effect(&mut effects, Effect::Push(st));
                    self.done(effects)
                },
                _ => self.stay(),
            },
            _ => self.stay(),
        }
    }
    #[verifier::spinoff_prover]
    fn step_ensure(&mut self, event: Event) -> (s: Step)
        requires
            old(self)@.op is EnsureExists || old(self)@.op is EnsurePack || old(self)@.op is EnsureBuffer || old(self)@.op is EnsureCreate || old(self)@.op is EnsureRecheck,
        ensures
            outcome_of(final(self)@, s) == transition(old(self)@, event),
            final(self).spec_smol() == old(self).spec_smol(),
    {
        let mut effects: Vec<Effect> = Vec::new();
        assert(effects_view(effects@) =~= Seq::<EffectView>::empty());
        match &self.op {
            Op::EnsureExists => match event {
                Event::Output(o) => if Smol::machine_exists(o.as_str()) {
                    self.go(effects, Op::VmCheck)
                } else {
                    self.go(effects, Op::EnsurePack)
                },
                _ => self.stay(),
            },
            Op::EnsurePack => match event {
                Event::Pack(p) => match p {
                    None => {
                        Self::push_effect(&mut effects, Effect::Log(Note::MachineMissingNoPack));
                        match &self.last {
                            Some(s) => {
                                let mut st = s.duplicate();
                                st.tooltip = missing_tooltip_string();
                                Self::push_effect(&mut effects, Effect::Push(st));
                                self.go(effects, Op::VmCheck)
                            },
                            None => self.go(effects, Op::EnsureBuffer),
                        }
                    },
                    Some(path) => {
                        let path2 = path.clone();
                        Self::push_effect(&mut effects, Effect::Log(Note::MachineInit(path)));
                        self.go(effects, Op::EnsureCreate { pack: path2 })
                    },
                },
                _ => self.stay(),
            },
            Op::EnsureBuffer => match event {
                Event::Output(o) => {
                    let vm = Smol::status(o.as_str()) == crate::smolvm::VmState::Running;
                    let mut st = self.buffer_state(vm);
                    st.tooltip = missing_tooltip_string();
                    Self::push_effect(&mut effects, Effect::Push(st));
                    self.go(effects, Op::VmCheck)
                },
                _ => self.stay(),
            },
            Op::EnsureCreate { .. } => match event {
                Event::Output(o) => {
                    Self::push_effect(&mut effects, Effect::Log(Note::MachineCreated(o)));
                    self.go(effects, Op::EnsureRecheck)
                },
                _ => self.stay(),
            },
            Op::EnsureRecheck => match event {
                Event::Output(o) => {
                    if !Smol::machine_exists(o.as_str()) {
                        Self::push_effect(&mut effects, Effect::Log(Note::MachineCreateFailed));
                    }
                    self.go(effects, Op::VmCheck)
                },
                _ => self.stay(),
            },
            _ => self.stay(),
        }
    }
    #[verifier::spinoff_prover]
    fn step_vm(&mut self, event: Event) -> (s: Step)
        requires
            old(self)@.op is VmCheck || old(self)@.op is VmUpdate || old(self)@.op is VmSleep || old(self)@.op is VmPoll,
        ensures
            outcome_of(final(self)@, s) == transition(old(self)@, event),
            final(self).spec_smol() == old(self).spec_smol(),
    {
        let mut effects: Vec<Effect> = Vec::new();
        assert(effects_view(effects@) =~= Seq::<EffectView>::empty());
        match &self.op {
            Op::VmCheck => match event {
                Event::Output(o) => if Smol::status(o.as_str()) == crate::smolvm::VmState::Running {
                    Self::push_effect(&mut effects, Effect::Log(Note::VmAlreadyRunning));
                    self.go(effects, Op::LoopCheck { which: GuestLoop::Cdp })
                } else {
                    self.go(effects, Op::VmUpdate)
                },
                _ => self.stay(),
            },
            Op::VmUpdate => match event {
                Event::Output(o) => {
                    Self::push_effect(&mut effects, Effect::Log(Note::PortsUpdated(o)));
                    Self::push_effect(&mut effects, Effect::Spawn(Background::StartVm));
                    self.go(effects, Op::VmSleep { round: 0 })
                },
                _ => self.stay(),
            },
            Op::VmSleep { round } => {
                let round = *round;
                match event {
                    Event::Slept => self.go(effects, Op::VmPoll { round }),
                    _ => self.stay(),
                }
            },
            Op::VmPoll { round } => {
                let round = *round;
                match event {
                    Event::Output(o) => if Smol::status(o.as_str()) == crate::smolvm::VmState::Running {
                        Self::push_effect(&mut effects, Effect::Log(Note::VmRunning));
                        self.go(effects, Op::LoopCheck { which: GuestLoop::Cdp })
                    } else {
                        if round % 10 == 9 {
                            let secs = (round as u32 + 1) * 3;
                            Self::push_effect(&mut effects, Effect::Log(Note::WaitingBoot(secs)));
                        }
                        if round as u32 + 1 < BOOT_POLLS as u32 {
                            self.go(effects, Op::VmSleep { round: round + 1 })
                        } else {
                            Self::push_effect(&mut effects, Effect::Log(Note::VmBootTimeout));
                            self.go(effects, Op::LoopCheck { which: GuestLoop::Cdp })
                        }
                    },
                    _ => self.stay(),
                }
            },
            _ => self.stay(),
        }
    }
    #[verifier::spinoff_prover]
    fn step_loop(&mut self, event: Event) -> (s: Step)
        requires
            old(self)@.op is LoopCheck || old(self)@.op is LoopSleep || old(self)@.op is LoopPoll,
        ensures
            outcome_of(final(self)@, s) == transition(old(self)@, event),
            final(self).spec_smol() == old(self).spec_smol(),
    {
        let mut effects: Vec<Effect> = Vec::new();
        assert(effects_view(effects@) =~= Seq::<EffectView>::empty());
        match &self.op {
            Op::LoopCheck { which } => {
                let which = *which;
                match event {
                    Event::Output(o) => if Smol::loop_probe(o.as_str()) {
                        Self::push_effect(&mut effects, Effect::Log(Note::LoopAlreadyRunning(which)));
                        self.after_loop(effects, which)
                    } else {
                        Self::push_effect(&mut effects, Effect::Log(Note::LoopStarting(which)));
                        Self::push_effect(
                            &mut effects,
                            Effect::Spawn(Background::StartGuestLoop(which)),
                        );
                        self.go(effects, Op::LoopSleep { which, round: 0 })
                    },
                    _ => self.stay(),
                }
            },
            Op::LoopSleep { which, round } => {
                let (which, round) = (*which, *round);
                match event {
                    Event::Slept => self.go(effects, Op::LoopPoll { which, round }),
                    _ => self.stay(),
                }
            },
            Op::LoopPoll { which, round } => {
                let (which, round) = (*which, *round);
                match event {
                    Event::Output(o) => if Smol::loop_probe(o.as_str()) {
                        Self::push_effect(&mut effects, Effect::Log(Note::LoopRunning(which)));
                        self.after_loop(effects, which)
                    } else if round as u32 + 1 < LOOP_POLLS as u32 {
                        self.go(effects, Op::LoopSleep { which, round: round + 1 })
                    } else {
                        Self::push_effect(&mut effects, Effect::Log(Note::LoopTimeout(which)));
                        self.after_loop(effects, which)
                    },
                    _ => self.stay(),
                }
            },
            _ => self.stay(),
        }
    }
    #[verifier::spinoff_prover]
    fn step_stop(&mut self, event: Event) -> (s: Step)
        requires
            old(self)@.op is StopRun || old(self)@.op is StopSleep || old(self)@.op is StampSettled,
        ensures
            outcome_of(final(self)@, s) == transition(old(self)@, event),
            final(self).spec_smol() == old(self).spec_smol(),
    {
        let mut effects: Vec<Effect> = Vec::new();
        assert(effects_view(effects@) =~= Seq::<EffectView>::empty());
        match &self.op {
            Op::StopRun => match event {
                Event::Output(o) => {
                    Self::push_effect(&mut effects, Effect::Log(Note::MachineStopped(o)));
                    self.go(effects, Op::StopSleep)
                },
                _ => self.stay(),
            },
            Op::StopSleep => match event {
                Event::Slept => self.go(effects, Op::StampSettled),
                _ => self.stay(),
            },
            Op::StampSettled => match event {
                Event::Clock(now) => {
                    self.settled_ms = Some(now);
                    self.set_phase(ServicePhase::Idle, &mut effects);
                    self.refresh_start(effects, false)
                },
                _ => self.stay(),
            },

            _ => self.stay(),
        }
    }

    /// One step: take the answer `event` to the last request, update the
    /// state, and return the effects to perform and the next request. An
    /// answer of the wrong kind changes nothing and the request is repeated.
    pub fn step(&mut self, event: Event) -> (s: Step)
        ensures
            outcome_of(final(self)@, s) == transition(old(self)@, event),
            final(self).spec_smol() == old(self).spec_smol(),
    {
        match &self.op {
            Op::Idle => self.step_waiting(event),
            Op::Finished => self.step_waiting(event),
            Op::AwaitClock => self.step_waiting(event),
            Op::RefreshVm { .. } => self.step_refresh(event),
            Op::RefreshMcpPort { .. } => self.step_refresh(event),
            Op::RefreshCdpPort { .. } => self.step_refresh(event),
            Op::RefreshMcpLoop { .. } => self.step_refresh(event),
            Op::RefreshCdpLoop { .. } => self.step_refresh(event),
            Op::ToggleStatus => self.step_action(event),
            Op::RestartStatus => self.step_action(event),
            Op::RestartExec => self.step_action(event),
            Op::AutostartBuffer => self.step_action(event),
            Op::EnsureExists => self.step_ensure(event),
            Op::EnsurePack => self.step_ensure(event),
            Op::EnsureBuffer => self.step_ensure(event),
            Op::EnsureCreate { .. } => self.step_ensure(event),
            Op::EnsureRecheck => self.step_ensure(event),
            Op::VmCheck => self.step_vm(event),
            Op::VmUpdate => self.step_vm(event),
            Op::VmSleep { .. } => self.step_vm(event),
            Op::VmPoll { .. } => self.step_vm(event),
            Op::LoopCheck { .. } => self.step_loop(event),
            Op::LoopSleep { .. } => self.step_loop(event),
            Op::LoopPoll { .. } => self.step_loop(event),
            Op::StopRun => self.step_stop(event),
            Op::StopSleep => self.step_stop(event),
            Op::StampSettled => self.step_stop(event),
        }
    }

    fn buffer_state(&self, vm: bool) -> (st: UiState)
        ensures
            st@ == model::buffer_state(self@, vm),
    {
        UiState {
            health: Health { vm, ..Health::all_down() },
            tooltip: plain_tooltip_string(),
            autostart_checked: self.autostart_cached,
            phase: self.phase,
        }
    }
}

} // verus!
