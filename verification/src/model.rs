//! The worker as a state machine: what it asks for next, what it does
//! with each answer, and what it emits on the way.
use vstd::prelude::*;
use crate::config::{BOOT_POLLS, BOOT_POLL_MS, LOOP_POLLS, LOOP_POLL_MS, REFRESH_INTERVAL_MS, STOP_SETTLE_MS};
use crate::net::Port;
use crate::notes::Note;
use crate::smolvm::{reports_loop_running, reports_machine, reports_running, Background, Command, GuestLoop};
use crate::state::{Health, ServicePhase, UiStateView, UserAction, WorkerMsg};
use crate::text::decimal;
use crate::worker::{EffectView, Event, Op, Page, Request, WorkerView};

verus! {

/// The tooltip used when no probe has run.
pub open spec fn plain_tooltip() -> Seq<char> {
    "smolvm 服务台"@
}

/// The tooltip after a refresh: how many of the five checks are up.
pub open spec fn online_tooltip(up: nat) -> Seq<char> {
    "smolvm 服务台 · "@ + decimal(up) + "/"@ + decimal(5) + " 在线"@
}

/// The tooltip when the machine is missing and no bundle was found.
pub open spec fn missing_tooltip() -> Seq<char> {
    "缺机器：请放 kite.smolvmachine 在托盘旁或设 SMOLVM_TRAY_PACK"@
}

/// What the worker waits for in each state.
pub open spec fn pending(w: WorkerView) -> Request {
    match w.op {
        Op::Idle => Request::NextMessage,
        Op::Finished => Request::Finish,
        Op::AwaitClock => Request::Clock,
        Op::RefreshVm { .. } => Request::Run(Command::Status),
        Op::RefreshMcpPort { .. } => Request::Probe(Port::Mcp, w.http_probe),
        Op::RefreshCdpPort { .. } => Request::Probe(Port::Cdp, w.http_probe),
        Op::RefreshMcpLoop { .. } => Request::Run(Command::LoopProbe(GuestLoop::Kite)),
        Op::RefreshCdpLoop { .. } => Request::Run(Command::LoopProbe(GuestLoop::Cdp)),
        Op::ToggleStatus => Request::Run(Command::Status),
        Op::RestartStatus => Request::Run(Command::Status),
        Op::RestartExec => Request::Run(Command::RestartChromium),
        Op::AutostartBuffer => Request::Run(Command::Status),
        Op::EnsureExists => Request::Run(Command::Status),
        Op::EnsurePack => Request::LocatePack,
        Op::EnsureBuffer => Request::Run(Command::Status),
        Op::EnsureCreate { pack } => Request::Run(Command::CreateFromPack(pack)),
        Op::EnsureRecheck => Request::Run(Command::Status),
        Op::VmCheck => Request::Run(Command::Status),
        Op::VmUpdate => Request::Run(Command::UpdatePorts),
        Op::VmSleep { .. } => Request::Sleep(BOOT_POLL_MS),
        Op::VmPoll { .. } => Request::Run(Command::Status),
        Op::LoopCheck { which } => Request::Run(Command::LoopProbe(which)),
        Op::LoopSleep { .. } => Request::Sleep(LOOP_POLL_MS),
        Op::LoopPoll { which, .. } => Request::Run(Command::LoopProbe(which)),
        Op::StopRun => Request::Run(Command::Stop),
        Op::StopSleep => Request::Sleep(STOP_SETTLE_MS),
        Op::StampSettled => Request::Clock,
    }
}

/// Whether `e` answers what the worker waits for in state `op`.
pub open spec fn expects(op: Op, e: Event) -> bool {
    match op {
        Op::Idle => e is Message || e is Timeout || e is Disconnected,
        Op::Finished => false,
        Op::AwaitClock => e is Clock,
        Op::RefreshMcpPort { .. } => e is Probe,
        Op::RefreshCdpPort { .. } => e is Probe,
        Op::EnsurePack => e is Pack,
        Op::VmSleep { .. } => e is Slept,
        Op::LoopSleep { .. } => e is Slept,
        Op::StopSleep => e is Slept,
        Op::StampSettled => e is Clock,
        _ => e is Output,
    }
}

/// The outcome of one step: the next worker, what it emits, what it asks for next.
pub type Outcome = (WorkerView, Seq<EffectView>, Request);

/// Move to `op`, emitting `eff`; ask for what `op` waits for.
pub open spec fn go(w: WorkerView, eff: Seq<EffectView>, op: Op) -> Outcome {
    let w1 = WorkerView { op: op, ..w };
    (w1, eff, pending(w1))
}

/// Nothing happens; ask again for what the worker waits for.
pub open spec fn stay(w: WorkerView) -> Outcome {
    (w, Seq::empty(), pending(w))
}

/// The handling of a user action is over: back to waiting for messages.
pub open spec fn done(w: WorkerView, eff: Seq<EffectView>) -> Outcome {
    go(WorkerView { cancel: false, ..w }, eff, Op::Idle)
}

/// The UI state a phase change starts from: the last one, or an all-down one.
pub open spec fn base_state(w: WorkerView, p: ServicePhase) -> UiStateView {
    match w.last {
        Some(s) => s,
        None => UiStateView {
            health: Health::none(),
            tooltip: plain_tooltip(),
            autostart_checked: w.autostart_cached,
            phase: p,
        },
    }
}

/// A phase-only update: the last known health with the new phase, pushed at once.
pub open spec fn set_phase(w: WorkerView, p: ServicePhase) -> (WorkerView, Seq<EffectView>) {
    let st = UiStateView { phase: p, ..base_state(w, p) };
    (
        WorkerView { phase: p, last: Some(st), ..w },
        seq![EffectView::Log(Note::Phase(p)), EffectView::Push(st)],
    )
}

/// The cheap display state from a fresh VM status alone.
pub open spec fn buffer_state(w: WorkerView, vm: bool) -> UiStateView {
    UiStateView {
        health: Health { vm: vm, ..Health::none() },
        tooltip: plain_tooltip(),
        autostart_checked: w.autostart_cached,
        phase: w.phase,
    }
}

/// Begin a refresh (`timed`: started by the timer rather than by an operation).
pub open spec fn refresh_start(w: WorkerView, eff: Seq<EffectView>, timed: bool) -> Outcome {
    go(w, eff, Op::RefreshVm { timed })
}

/// Finish a refresh with health `h`: remember and push the new UI state, log it.
pub open spec fn refresh_end(w: WorkerView, eff: Seq<EffectView>, h: Health, timed: bool) -> Outcome {
    let st = UiStateView {
        health: h,
        tooltip: online_tooltip(h.spec_up()),
        autostart_checked: w.autostart_cached,
        phase: w.phase,
    };
    let w1 = WorkerView { last: Some(st), ..w };
    let e1 = eff + seq![EffectView::Push(st), EffectView::Log(Note::Refreshed(h))];
    if timed {
        go(w1, e1, Op::AwaitClock)
    } else {
        done(w1, e1)
    }
}

/// Begin start-all: phase Starting, then make sure the machine exists.
pub open spec fn start_all(w: WorkerView, eff: Seq<EffectView>) -> Outcome {
    let (w1, e1) = set_phase(w, ServicePhase::Starting);
    go(w1, eff + e1, Op::EnsureExists)
}

/// Begin stop-all: phase Stopping, then `machine stop`.
pub open spec fn stop_all(w: WorkerView, eff: Seq<EffectView>) -> Outcome {
    let (w1, e1) = set_phase(w, ServicePhase::Stopping);
    go(w1, eff + e1 + seq![EffectView::Log(Note::StoppingAll)], Op::StopRun)
}

/// Begin bringing the VM up.
pub open spec fn start_vm(w: WorkerView, eff: Seq<EffectView>) -> Outcome {
    go(w, eff, Op::VmCheck)
}

/// Begin bringing a guest loop up.
pub open spec fn loop_start(w: WorkerView, eff: Seq<EffectView>, which: GuestLoop) -> Outcome {
    go(w, eff, Op::LoopCheck { which })
}

/// After a guest loop: the CDP loop is followed by the kite loop; the kite
/// loop ends start-all (the end is stamped, then phase Idle and a refresh).
pub open spec fn after_loop(w: WorkerView, eff: Seq<EffectView>, which: GuestLoop) -> Outcome {
    match which {
        GuestLoop::Cdp => loop_start(w, eff, GuestLoop::Kite),
        GuestLoop::Kite => go(w, eff.push(EffectView::Log(Note::StartAllFinished)), Op::StampSettled),
    }
}

/// A start/stop has settled at `now`: remember the time, phase Idle, refresh.
pub open spec fn settle(w: WorkerView, now: u64) -> Outcome {
    let (w1, e1) = set_phase(WorkerView { settled_ms: Some(now), ..w }, ServicePhase::Idle);
    refresh_start(w1, e1, false)
}

/// The handling of user action `a` (the action is already logged in `eff`).
pub open spec fn handle(w: WorkerView, eff: Seq<EffectView>, a: UserAction) -> Outcome {
    match a {
        UserAction::ToggleService => go(w, eff, Op::ToggleStatus),
        UserAction::InitialStart => start_all(w, eff),
        UserAction::OpenCdp => done(w, eff.push(EffectView::Open(Page::Cdp))),
        UserAction::OpenMcp => done(w, eff.push(EffectView::Open(Page::Mcp))),
        UserAction::RestartChromium => go(w, eff, Op::RestartStatus),
        UserAction::OpenLogs => done(w, eff.push(EffectView::OpenLogDir)),
        UserAction::ToggleAutostart => {
            let on = !w.autostart_cached;
            let w1 = WorkerView { autostart_cached: on, ..w };
            let e1 = eff + seq![EffectView::SetAutostart(on), EffectView::Log(Note::Autostart(on))];
            match w1.last {
                Some(s) => done(w1, e1.push(EffectView::Push(UiStateView { autostart_checked: on, ..s }))),
                None => go(w1, e1, Op::AutostartBuffer),
            }
        },
        UserAction::Exit => (
            WorkerView { cancel: false, op: Op::Finished, ..w },
            eff + seq![EffectView::Log(Note::ExitRequested), EffectView::ExitUi],
            Request::Finish,
        ),
    }
}

/// A toggle sent at `sent_ms` was queued while a start or stop was in
/// flight: it was sent before the last start/stop settled.
pub open spec fn queued_during_operation(w: WorkerView, sent_ms: u64) -> bool {
    match w.settled_ms {
        Some(t) => sent_ms < t,
        None => false,
    }
}

/// A message, sent at `sent_ms`, while waiting: a toggle sent while a
/// start/stop was in flight is dropped rather than re-run; any other message
/// cancels refreshing and is handled.
pub open spec fn on_message(w: WorkerView, a: UserAction, sent_ms: u64) -> Outcome {
    if a == UserAction::ToggleService && (w.phase != ServicePhase::Idle || queued_during_operation(
        w,
        sent_ms,
    )) {
        go(w, seq![EffectView::Log(Note::ToggleDropped)], Op::Idle)
    } else {
        handle(WorkerView { cancel: true, ..w }, seq![EffectView::Log(Note::Action(a))], a)
    }
}

/// The refresh timer is due at `now`: no refresh yet, or 8 s since the last one.
pub open spec fn refresh_due(w: WorkerView, now: u64) -> bool {
    match w.last_refresh_ms {
        None => true,
        Some(t) => t <= now && t + REFRESH_INTERVAL_MS <= now,
    }
}

/// No message within the receive window at `now`.
pub open spec fn on_timeout(w: WorkerView, now: u64) -> Outcome {
    if refresh_due(w, now) {
        if !w.cancel {
            refresh_start(w, Seq::empty(), true)
        } else {
            go(WorkerView { last_refresh_ms: Some(now), ..w }, Seq::empty(), Op::Idle)
        }
    } else {
        stay(w)
    }
}

/// One step of the worker: the state after event `e`, what it emits, and
/// what it asks for next. An event that does not answer what the worker
/// waits for changes nothing.
pub open spec fn transition(w: WorkerView, e: Event) -> Outcome {
    match w.op {
        Op::Idle => match e {
            Event::Message(WorkerMsg::Act(a), sent_ms) => on_message(w, a, sent_ms),
            Event::Timeout(now) => on_timeout(w, now),
            Event::Disconnected => go(w, Seq::empty(), Op::Finished),
            _ => stay(w),
        },
        Op::Finished => stay(w),
        Op::AwaitClock => match e {
            Event::Clock(now) => go(WorkerView { last_refresh_ms: Some(now), ..w }, Seq::empty(), Op::Idle),
            _ => stay(w),
        },
        Op::RefreshVm { timed } => match e {
            Event::Output(o) => if reports_running(o@) {
                go(w, Seq::empty(), Op::RefreshMcpPort { timed })
            } else {
                refresh_end(w, Seq::empty(), Health::none(), timed)
            },
            _ => stay(w),
        },
        Op::RefreshMcpPort { timed } => match e {
            Event::Probe(b) => go(w, Seq::empty(), Op::RefreshCdpPort { timed, mcp_port: b }),
            _ => stay(w),
        },
        Op::RefreshCdpPort { timed, mcp_port } => match e {
            Event::Probe(b) => go(w, Seq::empty(), Op::RefreshMcpLoop { timed, mcp_port, cdp_port: b }),
            _ => stay(w),
        },
        Op::RefreshMcpLoop { timed, mcp_port, cdp_port } => match e {
            Event::Output(o) => go(
                w,
                Seq::empty(),
                Op::RefreshCdpLoop { timed, mcp_port, cdp_port, mcp_loop: reports_loop_running(o@) },
            ),
            _ => stay(w),
        },
        Op::RefreshCdpLoop { timed, mcp_port, cdp_port, mcp_loop } => match e {
            Event::Output(o) => refresh_end(
                w,
                Seq::empty(),
                Health { vm: true, mcp_port, mcp_loop, cdp_port, cdp_loop: reports_loop_running(o@) },
                timed,
            ),
            _ => stay(w),
        },
        Op::ToggleStatus => match e {
            Event::Output(o) => if reports_running(o@) {
                stop_all(w, Seq::empty())
            } else {
                start_all(w, Seq::empty())
            },
            _ => stay(w),
        },
        Op::RestartStatus => match e {
            Event::Output(o) => if reports_running(o@) {
                go(w, Seq::empty(), Op::RestartExec)
            } else {
                done(w, seq![EffectView::Log(Note::RestartSkipped)])
            },
            _ => stay(w),
        },
        Op::RestartExec => match e {
            Event::Output(o) => done(w, seq![EffectView::Log(Note::RestartDone(o))]),
            _ => stay(w),
        },
        Op::AutostartBuffer => match e {
            Event::Output(o) => done(w, seq![EffectView::Push(buffer_state(w, reports_running(o@)))]),
            _ => stay(w),
        },
        Op::EnsureExists => match e {
            Event::Output(o) => if reports_machine(o@) {
                start_vm(w, Seq::empty())
            } else {
                go(w, Seq::empty(), Op::EnsurePack)
            },
            _ => stay(w),
        },
        Op::EnsurePack => match e {
            Event::Pack(p) => match p {
                None => {
                    let e1 = seq![EffectView::Log(Note::MachineMissingNoPack)];
                    match w.last {
                        Some(s) => start_vm(
                            w,
                            e1.push(EffectView::Push(UiStateView { tooltip: missing_tooltip(), ..s })),
                        ),
                        None => go(w, e1, Op::EnsureBuffer),
                    }
                },
                Some(path) => go(
                    w,
                    seq![EffectView::Log(Note::MachineInit(path))],
                    Op::EnsureCreate { pack: path },
                ),
            },
            _ => stay(w),
        },
        Op::EnsureBuffer => match e {
            Event::Output(o) => start_vm(
                w,
                seq![
                    EffectView::Push(
                        UiStateView { tooltip: missing_tooltip(), ..buffer_state(w, reports_running(o@)) },
                    ),
                ],
            ),
            _ => stay(w),
        },
        Op::EnsureCreate { pack } => match e {
            Event::Output(o) => go(w, seq![EffectView::Log(Note::MachineCreated(o))], Op::EnsureRecheck),
            _ => stay(w),
        },
        Op::EnsureRecheck => match e {
            Event::Output(o) => if reports_machine(o@) {
                start_vm(w, Seq::empty())
            } else {
                start_vm(w, seq![EffectView::Log(Note::MachineCreateFailed)])
            },
            _ => stay(w),
        },
        Op::VmCheck => match e {
            Event::Output(o) => if reports_running(o@) {
                loop_start(w, seq![EffectView::Log(Note::VmAlreadyRunning)], GuestLoop::Cdp)
            } else {
                go(w, Seq::empty(), Op::VmUpdate)
            },
            _ => stay(w),
        },
        Op::VmUpdate => match e {
            Event::Output(o) => go(
                w,
                seq![EffectView::Log(Note::PortsUpdated(o)), EffectView::Spawn(Background::StartVm)],
                Op::VmSleep { round: 0 },
            ),
            _ => stay(w),
        },
        Op::VmSleep { round } => match e {
            Event::Slept => go(w, Seq::empty(), Op::VmPoll { round }),
            _ => stay(w),
        },
        Op::VmPoll { round } => match e {
            Event::Output(o) => if reports_running(o@) {
                loop_start(w, seq![EffectView::Log(Note::VmRunning)], GuestLoop::Cdp)
            } else {
                let e1 = if round % 10 == 9 {
                    seq![EffectView::Log(Note::WaitingBoot(((round + 1) * 3) as u32))]
                } else {
                    Seq::empty()
                };
                if round + 1 < BOOT_POLLS {
                    go(w, e1, Op::VmSleep { round: (round + 1) as u8 })
                } else {
                    loop_start(w, e1.push(EffectView::Log(Note::VmBootTimeout)), GuestLoop::Cdp)
                }
            },
            _ => stay(w),
        },
        Op::LoopCheck { which } => match e {
            Event::Output(o) => if reports_loop_running(o@) {
                after_loop(w, seq![EffectView::Log(Note::LoopAlreadyRunning(which))], which)
            } else {
                go(
                    w,
                    seq![
                        EffectView::Log(Note::LoopStarting(which)),
                        EffectView::Spawn(Background::StartGuestLoop(which)),
                    ],
                    Op::LoopSleep { which, round: 0 },
                )
            },
            _ => stay(w),
        },
        Op::LoopSleep { which, round } => match e {
            Event::Slept => go(w, Seq::empty(), Op::LoopPoll { which, round }),
            _ => stay(w),
        },
        Op::LoopPoll { which, round } => match e {
            Event::Output(o) => if reports_loop_running(o@) {
                after_loop(w, seq![EffectView::Log(Note::LoopRunning(which))], which)
            } else if round + 1 < LOOP_POLLS {
                go(w, Seq::empty(), Op::LoopSleep { which, round: (round + 1) as u8 })
            } else {
                after_loop(w, seq![EffectView::Log(Note::LoopTimeout(which))], which)
            },
            _ => stay(w),
        },
        Op::StopRun => match e {
            Event::Output(o) => go(w, seq![EffectView::Log(Note::MachineStopped(o))], Op::StopSleep),
            _ => stay(w),
        },
        Op::StopSleep => match e {
            Event::Slept => go(w, Seq::empty(), Op::StampSettled),
            _ => stay(w),
        },
        Op::StampSettled => match e {
            Event::Clock(now) => settle(w, now),
            _ => stay(w),
        },
    }
}

} // verus!
