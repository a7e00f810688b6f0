//! Properties of the worker that hold over every step.
use vstd::prelude::*;
use crate::config::{BOOT_POLL_MS, LOOP_POLL_MS};
use crate::model::{
    Outcome, buffer_state, expects, missing_tooltip, online_tooltip, pending, queued_during_operation,
    refresh_due, stay, transition,
};
use crate::net::Port;
use crate::notes::Note;
use crate::smolvm::{reports_loop_running, reports_running, Background, Command, GuestLoop};
use crate::state::{Health, ServicePhase, UiStateView, UserAction, WorkerMsg};
use crate::text::{contains_ci, ends_with, trim_end};
use crate::worker::{EffectView, Event, Op, Request, WorkerView};

verus! {

/// The state of a freshly made worker.
pub open spec fn initial(autostart_cached: bool, http_probe: bool) -> WorkerView {
    WorkerView {
        phase: ServicePhase::Idle,
        autostart_cached,
        cancel: false,
        last: None,
        last_refresh_ms: None,
        settled_ms: None,
        http_probe,
        op: Op::Idle,
    }
}

/// What every reachable worker state satisfies: the phase is Idle (and the
/// switch enabled) whenever the worker waits for a message; it is Starting
/// throughout start-all and Stopping throughout stop-all; refreshing is
/// cancelled exactly while an action is handled; the polls stay within
/// their windows; the remembered UI state carries the current phase and
/// never shows a port or loop up while the VM is down.
pub open spec fn inv(w: WorkerView) -> bool {
    &&& match w.last {
        Some(s) => s.health.coherent() && s.phase == w.phase,
        None => true,
    }
    &&& match w.op {
        Op::Idle => w.phase == ServicePhase::Idle && !w.cancel,
        Op::Finished => !w.cancel,
        Op::AwaitClock => w.phase == ServicePhase::Idle && !w.cancel,
        Op::RefreshVm { timed } => w.phase == ServicePhase::Idle && w.cancel == !timed,
        Op::RefreshMcpPort { timed } => w.phase == ServicePhase::Idle && w.cancel == !timed,
        Op::RefreshCdpPort { timed, .. } => w.phase == ServicePhase::Idle && w.cancel == !timed,
        Op::RefreshMcpLoop { timed, .. } => w.phase == ServicePhase::Idle && w.cancel == !timed,
        Op::RefreshCdpLoop { timed, .. } => w.phase == ServicePhase::Idle && w.cancel == !timed,
        Op::ToggleStatus => w.phase == ServicePhase::Idle && w.cancel,
        Op::RestartStatus => w.phase == ServicePhase::Idle && w.cancel,
        Op::RestartExec => w.phase == ServicePhase::Idle && w.cancel,
        Op::AutostartBuffer => w.phase == ServicePhase::Idle && w.cancel,
        Op::VmSleep { round } => w.phase == ServicePhase::Starting && w.cancel && round < 40,
        Op::VmPoll { round } => w.phase == ServicePhase::Starting && w.cancel && round < 40,
        Op::LoopSleep { round, .. } => w.phase == ServicePhase::Starting && w.cancel && round < 20,
        Op::LoopPoll { round, .. } => w.phase == ServicePhase::Starting && w.cancel && round < 20,
        Op::StopRun => w.phase == ServicePhase::Stopping && w.cancel,
        Op::StopSleep => w.phase == ServicePhase::Stopping && w.cancel,
        Op::StampSettled => w.phase != ServicePhase::Idle && w.cancel,
        _ => w.phase == ServicePhase::Starting && w.cancel,
    }
}

/// 1 for a timer refresh (it ends by reading the clock), else 0.
pub open spec fn timed_extra(timed: bool) -> nat {
    if timed {
        1
    } else {
        0
    }
}

/// The rank of the state before a guest loop's check, once that loop is done.
pub open spec fn loop_base(which: GuestLoop) -> nat {
    match which {
        GuestLoop::Kite => 6,
        GuestLoop::Cdp => 47,
    }
}

/// An upper bound on the steps left before the worker waits for a message again.
pub open spec fn rank(op: Op) -> nat {
    match op {
        Op::Idle => 0,
        Op::Finished => 0,
        Op::AwaitClock => 1,
        Op::RefreshVm { timed } => 5 + timed_extra(timed),
        Op::RefreshMcpPort { timed } => 4 + timed_extra(timed),
        Op::RefreshCdpPort { timed, .. } => 3 + timed_extra(timed),
        Op::RefreshMcpLoop { timed, .. } => 2 + timed_extra(timed),
        Op::RefreshCdpLoop { timed, .. } => 1 + timed_extra(timed),
        Op::ToggleStatus => 175,
        Op::RestartStatus => 2,
        Op::RestartExec => 1,
        Op::AutostartBuffer => 1,
        Op::EnsureExists => 174,
        Op::EnsurePack => 173,
        Op::EnsureCreate { .. } => 172,
        Op::EnsureBuffer => 171,
        Op::EnsureRecheck => 171,
        Op::VmCheck => 170,
        Op::VmUpdate => 169,
        Op::VmSleep { round } => (90 + 2 * (39 - round)) as nat,
        Op::VmPoll { round } => (89 + 2 * (39 - round)) as nat,
        Op::LoopCheck { which } => loop_base(which) + 41,
        Op::LoopSleep { which, round } => (loop_base(which) + 2 + 2 * (19 - round)) as nat,
        Op::LoopPoll { which, round } => (loop_base(which) + 1 + 2 * (19 - round)) as nat,
        Op::StopRun => 8,
        Op::StopSleep => 7,
        Op::StampSettled => 6,
    }
}

/// The worker's request always matches its new state: it asks for exactly
/// what that state waits for.
pub proof fn law_request_matches_state(w: WorkerView, e: Event)
    ensures
        transition(w, e).2 == pending(transition(w, e).0),
{
}

/// An answer of the wrong kind leaves the worker unchanged, emits nothing,
/// and the same request is made again.
pub proof fn law_unexpected_answer_changes_nothing(w: WorkerView, e: Event)
    requires
        !expects(w.op, e),
    ensures
        transition(w, e) == stay(w),
{
}

/// A freshly made worker satisfies the invariant.
pub proof fn law_initial_state_valid(autostart_cached: bool, http_probe: bool)
    ensures
        inv(initial(autostart_cached, http_probe)),
{
}

/// Every step keeps the invariant.
#[verifier::spinoff_prover]
pub proof fn law_invariant_preserved(w: WorkerView, e: Event)
    requires
        inv(w),
    ensures
        inv(transition(w, e).0),
{
    match w.op {
        Op::Idle => {},
        Op::Finished => {},
        Op::AwaitClock => {},
        Op::RefreshVm { .. } => {},
        Op::RefreshMcpPort { .. } => {},
        Op::RefreshCdpPort { .. } => {},
        Op::RefreshMcpLoop { .. } => {},
        Op::RefreshCdpLoop { .. } => {},
        Op::ToggleStatus => {},
        Op::RestartStatus => {},
        Op::RestartExec => {},
        Op::AutostartBuffer => {},
        Op::EnsureExists => {},
        Op::EnsurePack => {},
        Op::EnsureBuffer => {},
        Op::EnsureCreate { .. } => {},
        Op::EnsureRecheck => {},
        Op::VmCheck => {},
        Op::VmUpdate => {},
        Op::VmSleep { .. } => {},
        Op::VmPoll { .. } => {},
        Op::LoopCheck { .. } => {},
        Op::LoopSleep { .. } => {},
        Op::LoopPoll { .. } => {},
        Op::StopRun => {},
        Op::StopSleep => {},
        Op::StampSettled => {},
    }
}

/// Every UI state the worker pushes shows ports and loops down while the
/// VM is down (they are only probed while it runs).
#[verifier::spinoff_prover]
pub proof fn law_pushed_states_coherent(w: WorkerView, e: Event)
    requires
        inv(w),
    ensures
        forall|i: int|
            0 <= i < transition(w, e).1.len() ==> match #[trigger] transition(w, e).1[i] {
                EffectView::Push(s) => s.health.coherent(),
                _ => true,
            },
{
    match w.op {
        Op::Idle => {},
        Op::Finished => {},
        Op::AwaitClock => {},
        Op::RefreshVm { .. } => {},
        Op::RefreshMcpPort { .. } => {},
        Op::RefreshCdpPort { .. } => {},
        Op::RefreshMcpLoop { .. } => {},
        Op::RefreshCdpLoop { .. } => {},
        Op::ToggleStatus => {},
        Op::RestartStatus => {},
        Op::RestartExec => {},
        Op::AutostartBuffer => {},
        Op::EnsureExists => {},
        Op::EnsurePack => {},
        Op::EnsureBuffer => {},
        Op::EnsureCreate { .. } => {},
        Op::EnsureRecheck => {},
        Op::VmCheck => {},
        Op::VmUpdate => {},
        Op::VmSleep { .. } => {},
        Op::VmPoll { .. } => {},
        Op::LoopCheck { .. } => {},
        Op::LoopSleep { .. } => {},
        Op::LoopPoll { .. } => {},
        Op::StopRun => {},
        Op::StopSleep => {},
        Op::StampSettled => {},
    }
}

/// Every operation ends: each expected answer either returns the worker to
/// waiting for messages or strictly lowers its rank.
#[verifier::spinoff_prover]
pub proof fn law_operations_progress(w: WorkerView, e: Event)
    requires
        inv(w),
        expects(w.op, e),
        !(w.op is Idle),
        !(w.op is Finished),
    ensures
        transition(w, e).0.op is Idle || rank(transition(w, e).0.op) < rank(w.op),
{
    match w.op {
        Op::Idle => {},
        Op::Finished => {},
        Op::AwaitClock => {},
        Op::RefreshVm { .. } => {},
        Op::RefreshMcpPort { .. } => {},
        Op::RefreshCdpPort { .. } => {},
        Op::RefreshMcpLoop { .. } => {},
        Op::RefreshCdpLoop { .. } => {},
        Op::ToggleStatus => {},
        Op::RestartStatus => {},
        Op::RestartExec => {},
        Op::AutostartBuffer => {},
        Op::EnsureExists => {},
        Op::EnsurePack => {},
        Op::EnsureBuffer => {},
        Op::EnsureCreate { .. } => {},
        Op::EnsureRecheck => {},
        Op::VmCheck => {},
        Op::VmUpdate => {},
        Op::VmSleep { .. } => {},
        Op::VmPoll { .. } => {},
        Op::LoopCheck { .. } => {},
        Op::LoopSleep { .. } => {},
        Op::LoopPoll { .. } => {},
        Op::StopRun => {},
        Op::StopSleep => {},
        Op::StampSettled => {},
    }
}

/// Any user action is handled within a bounded number of further steps.
pub proof fn law_actions_bounded(w: WorkerView, a: UserAction, sent_ms: u64)
    requires
        inv(w),
        w.op is Idle,
    ensures
        rank(transition(w, Event::Message(WorkerMsg::Act(a), sent_ms)).0.op) <= 175,
{
}

/// A toggle sent while a start or stop was in flight (before the last one
/// settled) is dropped rather than re-run: only a log line, and the worker
/// waits for the next message. Reachable: every start/stop stamps when it
/// settles, and toggles queued during it carry an earlier send time.
pub proof fn law_toggle_dropped_while_busy(w: WorkerView, sent_ms: u64)
    requires
        inv(w),
        w.op is Idle,
        w.settled_ms matches Some(t) && sent_ms < t,
    ensures
        transition(w, Event::Message(WorkerMsg::Act(UserAction::ToggleService), sent_ms)) == (
            w,
            seq![EffectView::Log(Note::ToggleDropped)],
            Request::NextMessage,
        ),
{
}

/// A toggle sent after the last start/stop settled is handled: it asks for
/// the VM status that decides between start and stop.
pub proof fn law_toggle_after_settle_handled(w: WorkerView, sent_ms: u64)
    requires
        inv(w),
        w.op is Idle,
        !queued_during_operation(w, sent_ms),
    ensures
        transition(w, Event::Message(WorkerMsg::Act(UserAction::ToggleService), sent_ms)).0.op
            is ToggleStatus,
{
}

/// Every start-all and stop-all ends by stamping when it settled, then goes
/// back to phase Idle and refreshes.
pub proof fn law_operations_stamp_settle(w: WorkerView, now: u64)
    requires
        w.op is StampSettled,
    ensures
        transition(w, Event::Clock(now)).0.settled_ms == Some(now),
        transition(w, Event::Clock(now)).0.phase == ServicePhase::Idle,
        transition(w, Event::Clock(now)).0.op == (Op::RefreshVm { timed: false }),
{
}

/// Exit leaves the services as they are: the UI is told to quit, the
/// worker ends, and no command is run or spawned.
pub proof fn law_exit_leaves_services(w: WorkerView, sent_ms: u64)
    requires
        w.op is Idle,
        w.phase == ServicePhase::Idle,
    ensures
        transition(w, Event::Message(WorkerMsg::Act(UserAction::Exit), sent_ms)).2 == Request::Finish,
        transition(w, Event::Message(WorkerMsg::Act(UserAction::Exit), sent_ms)).0.op is Finished,
        transition(w, Event::Message(WorkerMsg::Act(UserAction::Exit), sent_ms)).1 == seq![
            EffectView::Log(Note::Action(UserAction::Exit)),
            EffectView::Log(Note::ExitRequested),
            EffectView::ExitUi,
        ],
{
}

/// The worker ends when every sender is gone.
pub proof fn law_disconnect_ends(w: WorkerView)
    requires
        w.op is Idle,
    ensures
        transition(w, Event::Disconnected).0.op is Finished,
        transition(w, Event::Disconnected).2 == Request::Finish,
{
}

/// A receive timeout starts a refresh exactly when the refresh timer is due
/// (8 s since the last timer refresh); otherwise nothing happens.
pub proof fn law_refresh_cadence(w: WorkerView, now: u64)
    requires
        inv(w),
        w.op is Idle,
    ensures
        transition(w, Event::Timeout(now)).0.op is RefreshVm <==> refresh_due(w, now),
        !refresh_due(w, now) ==> transition(w, Event::Timeout(now)) == stay(w),
{
}

/// The single switch follows the live VM status: stop-all (`machine stop`)
/// when it runs, start-all otherwise.
pub proof fn law_toggle_follows_status(w: WorkerView, o: String)
    requires
        w.op is ToggleStatus,
    ensures
        transition(w, Event::Output(o)).0.phase == (if reports_running(o@) {
            ServicePhase::Stopping
        } else {
            ServicePhase::Starting
        }),
        reports_running(o@) ==> transition(w, Event::Output(o)).2 == Request::Run(Command::Stop),
{
}

/// One autostart toggle, sent at `sent_ms`, handled to the end: when no UI
/// state is known yet, the display state is built from the VM status `o`.
pub open spec fn autostart_round(w: WorkerView, sent_ms: u64, o: String) -> Outcome {
    let s = transition(w, Event::Message(WorkerMsg::Act(UserAction::ToggleAutostart), sent_ms));
    if s.0.op is AutostartBuffer {
        let s2 = transition(s.0, Event::Output(o));
        (s2.0, s.1 + s2.1, s2.2)
    } else {
        s
    }
}

/// Two autostart toggles in a row switch autostart to the other value and
/// back: the first sets `!a`, the second `a`, the cached value ends at `a`,
/// and the last state pushed shows the check at `a`.
pub proof fn law_autostart_toggle_twice(w: WorkerView, t1: u64, o1: String, t2: u64, o2: String)
    requires
        inv(w),
        w.op is Idle,
    ensures
        ({
            let a = w.autostart_cached;
            let r1 = autostart_round(w, t1, o1);
            let r2 = autostart_round(r1.0, t2, o2);
            &&& r1.1[1] == EffectView::SetAutostart(!a)
            &&& r1.0.autostart_cached == !a
            &&& r1.0.op is Idle
            &&& r1.1.last() matches EffectView::Push(st) && st.autostart_checked == !a
            &&& r2.1[1] == EffectView::SetAutostart(a)
            &&& r2.0.autostart_cached == a
            &&& r2.0.op is Idle
            &&& r2.1.last() matches EffectView::Push(st) && st.autostart_checked == a
            &&& r2.2 == Request::NextMessage
        }),
{
    let r1 = autostart_round(w, t1, o1);
    let s = transition(w, Event::Message(WorkerMsg::Act(UserAction::ToggleAutostart), t1));
    law_invariant_preserved(w, Event::Message(WorkerMsg::Act(UserAction::ToggleAutostart), t1));
    if s.0.op is AutostartBuffer {
        law_invariant_preserved(s.0, Event::Output(o1));
    }
    assert(inv(r1.0));
}

/// The published-port insurance comes first: a VM that is not running gets
/// `machine update -p ...` before anything is spawned, and `machine start`
/// is spawned right after that update, followed by the first boot pause.
pub proof fn law_ports_before_start(w: WorkerView, o: String)
    requires
        w.op is VmCheck || w.op is VmUpdate,
    ensures
        (w.op is VmCheck && !reports_running(o@)) ==> {
            &&& transition(w, Event::Output(o)).1 == Seq::<EffectView>::empty()
            &&& transition(w, Event::Output(o)).2 == Request::Run(Command::UpdatePorts)
        },
        w.op is VmUpdate ==> {
            &&& transition(w, Event::Output(o)).1 == seq![
                EffectView::Log(Note::PortsUpdated(o)),
                EffectView::Spawn(Background::StartVm),
            ]
            &&& transition(w, Event::Output(o)).2 == Request::Sleep(BOOT_POLL_MS)
        },
{
}

/// A missing machine with no bundle fails fast with a tooltip hint: the
/// pushed state carries the hint, at once when a UI state is known, else
/// right after the VM status that the display state needs.
pub proof fn law_missing_machine_hint(w: WorkerView, o: String)
    requires
        w.op is EnsurePack || w.op is EnsureBuffer,
    ensures
        (w.op is EnsurePack && w.last is Some) ==> transition(w, Event::Pack(None)).1.last()
            == EffectView::Push(UiStateView { tooltip: missing_tooltip(), ..w.last->0 }),
        (w.op is EnsurePack && w.last is None) ==> transition(w, Event::Pack(None)).0.op
            is EnsureBuffer,
        w.op is EnsureBuffer ==> transition(w, Event::Output(o)).1 == seq![
            EffectView::Push(
                UiStateView { tooltip: missing_tooltip(), ..buffer_state(w, reports_running(o@)) },
            ),
        ],
{
}

/// Start-all is idempotent: a running VM is not updated or started again,
/// and a running guest loop is not spawned again.
pub proof fn law_start_skips_running_services(w: WorkerView, o: String)
    requires
        w.op is VmCheck || w.op is LoopCheck,
    ensures
        (w.op is VmCheck && reports_running(o@)) ==> {
            &&& transition(w, Event::Output(o)).1 == seq![EffectView::Log(Note::VmAlreadyRunning)]
            &&& transition(w, Event::Output(o)).2 == Request::Run(
                Command::LoopProbe(GuestLoop::Cdp),
            )
        },
        (w.op is LoopCheck && reports_loop_running(o@)) ==> forall|i: int|
            0 <= i < transition(w, Event::Output(o)).1.len() ==> !(#[trigger] transition(
                w,
                Event::Output(o),
            ).1[i] is Spawn),
{
}

/// A refresh asks for the VM status first. While the VM runs (the status
/// mentions "running", in any case), it then probes the MCP port, the CDP
/// port, the kite loop and the CDP loop, in that order, and pushes a health
/// built from those answers: each port from its own probe, each loop from
/// whether its own probe printed RUNNING at the end (trailing white space
/// aside), with the count of checks up in the tooltip. While the VM is not
/// running it probes nothing and pushes all five checks down.
pub proof fn law_refresh_reports_each_answer(
    w: WorkerView,
    timed: bool,
    status: String,
    mcp_port: bool,
    cdp_port: bool,
    kite_probe: String,
    cdp_probe: String,
)
    requires
        w.op == (Op::RefreshVm { timed }),
    ensures
        ({
            let r0 = transition(w, Event::Output(status));
            let r1 = transition(r0.0, Event::Probe(mcp_port));
            let r2 = transition(r1.0, Event::Probe(cdp_port));
            let r3 = transition(r2.0, Event::Output(kite_probe));
            let r4 = transition(r3.0, Event::Output(cdp_probe));
            &&& contains_ci(status@, "running"@) ==> {
                &&& r0.2 == Request::Probe(Port::Mcp, w.http_probe)
                &&& r1.2 == Request::Probe(Port::Cdp, w.http_probe)
                &&& r2.2 == Request::Run(Command::LoopProbe(GuestLoop::Kite))
                &&& r3.2 == Request::Run(Command::LoopProbe(GuestLoop::Cdp))
                &&& r4.1[0] matches EffectView::Push(st) && st.health == (Health {
                    vm: true,
                    mcp_port: mcp_port,
                    mcp_loop: ends_with(trim_end(kite_probe@), "RUNNING"@),
                    cdp_port: cdp_port,
                    cdp_loop: ends_with(trim_end(cdp_probe@), "RUNNING"@),
                }) && st.tooltip == online_tooltip(st.health.spec_up())
            }
            &&& !contains_ci(status@, "running"@) ==> {
                &&& r0.1[0] matches EffectView::Push(st) && st.health == Health::none()
                    && st.tooltip == online_tooltip(0)
                &&& !(r0.2 is Probe)
            }
        }),
{
}

/// Start-all brings the guest loops up one after the other, the CDP loop
/// first. A loop whose probe does not print RUNNING at the end (trailing
/// white space aside) gets its own server spawned, and the worker pauses
/// before probing it again. Once a loop runs, the next step is the probe of
/// the kite loop after the CDP loop, and the clock reading that ends
/// start-all after the kite loop.
pub proof fn law_guest_loops_in_order(w: WorkerView, which: GuestLoop, round: u8, o: String)
    requires
        w.op == (Op::LoopCheck { which }) || w.op == (Op::LoopPoll { which, round }),
    ensures
        (w.op is LoopCheck && !ends_with(trim_end(o@), "RUNNING"@)) ==> {
            &&& transition(w, Event::Output(o)).1 == seq![
                EffectView::Log(Note::LoopStarting(which)),
                EffectView::Spawn(Background::StartGuestLoop(which)),
            ]
            &&& transition(w, Event::Output(o)).2 == Request::Sleep(LOOP_POLL_MS)
        },
        ends_with(trim_end(o@), "RUNNING"@) ==> {
            &&& forall|i: int|
                0 <= i < transition(w, Event::Output(o)).1.len() ==> !(#[trigger] transition(
                    w,
                    Event::Output(o),
                ).1[i] is Spawn)
            &&& transition(w, Event::Output(o)).2 == (if which == GuestLoop::Cdp {
                Request::Run(Command::LoopProbe(GuestLoop::Kite))
            } else {
                Request::Clock
            })
        },
{
}

} // verus!
