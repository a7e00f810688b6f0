use smolvm_tray::log::Logger;
use smolvm_tray::net::Port;
use smolvm_tray::notes::Note;
use smolvm_tray::smolvm::{Background, Command, GuestLoop, Smol};
use smolvm_tray::state::{Health, ServicePhase, UiState, UserAction, WorkerMsg};
use smolvm_tray::worker::{Effect, Event, Page, Request, Step, Worker};

fn worker(autostart: bool) -> Worker {
    let smol = Smol::new("smolvm".to_string(), Logger::new("/tmp/t.log".to_string()));
    Worker::new(smol, autostart, true)
}

fn act_at(a: UserAction, sent_ms: u64) -> Event {
    Event::Message(WorkerMsg::Act(a), sent_ms)
}

fn act(a: UserAction) -> Event {
    act_at(a, 1_000_000)
}

fn out(s: &str) -> Event {
    Event::Output(s.to_string())
}

const RUNNING: &str = "Machine 'kite': running (PID: 1)\n";
const STOPPED: &str = "Machine 'kite': stopped\n";

fn is_status(s: &Step) -> bool {
    matches!(s.request, Request::Run(Command::Status))
}

fn pushes(s: &Step) -> Vec<&UiState> {
    s.effects.iter().filter_map(|e| if let Effect::Push(u) = e { Some(u) } else { None }).collect()
}

fn notes(s: &Step) -> Vec<String> {
    s.effects.iter().filter_map(|e| if let Effect::Log(n) = e { Some(n.text()) } else { None }).collect()
}

#[test]
fn first_timeout_refreshes_then_waits_eight_seconds() {
    let mut w = worker(false);
    assert!(matches!(w.pending(), Request::NextMessage));
    let s = w.step(Event::Timeout(0));
    assert!(is_status(&s));
    assert!(s.effects.is_empty());
    let s = w.step(out(STOPPED));
    let p = pushes(&s);
    assert_eq!(p.len(), 1);
    assert_eq!(p[0].health, Health { vm: false, mcp_port: false, mcp_loop: false, cdp_port: false, cdp_loop: false });
    assert_eq!(p[0].tooltip, "smolvm 服务台 · 0/5 在线");
    assert_eq!(notes(&s), ["refresh vm=false mcp_port=false mcp_loop=false cdp_port=false cdp_loop=false"]);
    assert!(matches!(s.request, Request::Clock));
    let s = w.step(Event::Clock(100));
    assert!(matches!(s.request, Request::NextMessage));
    let s = w.step(Event::Timeout(8099));
    assert!(matches!(s.request, Request::NextMessage));
    assert!(s.effects.is_empty());
    let s = w.step(Event::Timeout(8100));
    assert!(is_status(&s));
}

#[test]
fn refresh_probes_ports_then_loops_while_running() {
    let mut w = worker(true);
    w.step(Event::Timeout(0));
    let s = w.step(out(RUNNING));
    assert!(matches!(s.request, Request::Probe(Port::Mcp, true)));
    let s = w.step(Event::Probe(true));
    assert!(matches!(s.request, Request::Probe(Port::Cdp, true)));
    let s = w.step(Event::Probe(false));
    assert!(matches!(s.request, Request::Run(Command::LoopProbe(GuestLoop::Kite))));
    let s = w.step(out("RUNNING\n"));
    assert!(matches!(s.request, Request::Run(Command::LoopProbe(GuestLoop::Cdp))));
    let s = w.step(out("NONE\n"));
    let p = pushes(&s);
    assert_eq!(p[0].health, Health { vm: true, mcp_port: true, mcp_loop: true, cdp_port: false, cdp_loop: false });
    assert_eq!(p[0].tooltip, "smolvm 服务台 · 3/5 在线");
    assert!(p[0].autostart_checked);
    assert_eq!(p[0].phase, ServicePhase::Idle);
}

#[test]
fn unexpected_answer_repeats_request() {
    let mut w = worker(false);
    w.step(Event::Timeout(0));
    let s = w.step(Event::Probe(true));
    assert!(is_status(&s));
    assert!(s.effects.is_empty());
    let s = w.step(Event::Slept);
    assert!(is_status(&s));
}

#[test]
fn toggle_when_running_stops_all() {
    let mut w = worker(false);
    let s = w.step(act(UserAction::ToggleService));
    assert_eq!(notes(&s), ["action: ToggleService (cancelling refresh)"]);
    assert!(is_status(&s));
    let s = w.step(out(RUNNING));
    assert_eq!(notes(&s), ["phase -> Stopping", "stopping all"]);
    assert_eq!(pushes(&s)[0].phase, ServicePhase::Stopping);
    assert!(matches!(s.request, Request::Run(Command::Stop)));
    let s = w.step(out("  stopped kite \n"));
    assert_eq!(notes(&s), ["machine stop: stopped kite"]);
    assert!(matches!(s.request, Request::Sleep(2000)));
    let s = w.step(Event::Slept);
    assert!(s.effects.is_empty());
    assert!(matches!(s.request, Request::Clock));
    let s = w.step(Event::Clock(5000));
    assert_eq!(notes(&s), ["phase -> Idle"]);
    assert_eq!(pushes(&s)[0].phase, ServicePhase::Idle);
    assert!(is_status(&s));
    let s = w.step(out(STOPPED));
    assert_eq!(pushes(&s).len(), 1);
    assert!(matches!(s.request, Request::NextMessage));
}

#[test]
fn toggle_queued_during_stop_is_dropped() {
    let mut w = worker(false);
    w.step(act_at(UserAction::ToggleService, 0));
    w.step(out(RUNNING));
    w.step(out("stopped\n"));
    w.step(Event::Slept);
    w.step(Event::Clock(5000));
    w.step(out(STOPPED));
    // sent while the stop was in flight
    let s = w.step(act_at(UserAction::ToggleService, 4999));
    assert_eq!(notes(&s), ["toggle dropped: start/stop already in progress"]);
    assert!(pushes(&s).is_empty());
    assert!(matches!(s.request, Request::NextMessage));
    // other actions sent then are still handled
    let s = w.step(act_at(UserAction::OpenMcp, 4000));
    assert!(s.effects.iter().any(|e| matches!(e, Effect::Open(Page::Mcp))));
    // sent after the stop settled
    let s = w.step(act_at(UserAction::ToggleService, 5000));
    assert_eq!(notes(&s), ["action: ToggleService (cancelling refresh)"]);
    assert!(is_status(&s));
}

#[test]
fn initial_start_when_everything_runs_is_idempotent() {
    let mut w = worker(false);
    let s = w.step(act(UserAction::InitialStart));
    assert_eq!(notes(&s), ["action: InitialStart (cancelling refresh)", "phase -> Starting"]);
    assert!(is_status(&s));
    let s = w.step(out(RUNNING)); // the machine exists
    assert!(is_status(&s));
    let s = w.step(out(RUNNING)); // the VM runs
    assert_eq!(notes(&s), ["vm already running"]);
    assert!(matches!(s.request, Request::Run(Command::LoopProbe(GuestLoop::Cdp))));
    let s = w.step(out("RUNNING"));
    assert_eq!(notes(&s), ["cdp-loop-probe.sh already RUNNING"]);
    assert!(matches!(s.request, Request::Run(Command::LoopProbe(GuestLoop::Kite))));
    let s = w.step(out("RUNNING"));
    assert_eq!(notes(&s), ["kite-loop-probe.sh already RUNNING", "start-all finished"]);
    assert!(!s.effects.iter().any(|e| matches!(e, Effect::Spawn(_))));
    assert!(matches!(s.request, Request::Clock));
    let s = w.step(Event::Clock(900));
    assert_eq!(notes(&s), ["phase -> Idle"]);
    assert!(is_status(&s));
}

#[test]
fn vm_boot_poll_gives_up_after_forty_rounds() {
    let mut w = worker(false);
    w.step(act(UserAction::InitialStart));
    w.step(out(STOPPED)); // exists
    let s = w.step(out(STOPPED)); // not running
    assert!(matches!(s.request, Request::Run(Command::UpdatePorts)));
    let s = w.step(out("updated\n"));
    assert_eq!(notes(&s), ["machine update ports: updated"]);
    assert!(s.effects.iter().any(|e| matches!(e, Effect::Spawn(Background::StartVm))));
    assert!(matches!(s.request, Request::Sleep(3000)));
    let mut waits = Vec::new();
    let mut polls = 0;
    loop {
        let s = w.step(Event::Slept);
        assert!(is_status(&s));
        polls += 1;
        let s = w.step(out(STOPPED));
        waits.extend(notes(&s));
        if !matches!(s.request, Request::Sleep(3000)) {
            assert!(matches!(s.request, Request::Run(Command::LoopProbe(GuestLoop::Cdp))));
            break;
        }
    }
    assert_eq!(polls, 40);
    assert_eq!(
        waits,
        [
            "waiting for vm boot (30/120s)",
            "waiting for vm boot (60/120s)",
            "waiting for vm boot (90/120s)",
            "waiting for vm boot (120/120s)",
            "WARN: vm not running after 120s"
        ]
    );
}

#[test]
fn guest_loop_poll_gives_up_after_twenty_rounds() {
    let mut w = worker(false);
    w.step(act(UserAction::InitialStart));
    w.step(out(STOPPED));
    w.step(out(RUNNING));
    let s = w.step(out("NONE"));
    assert_eq!(notes(&s), ["starting guest loop cdp-server.sh"]);
    assert!(s.effects.iter().any(|e| matches!(e, Effect::Spawn(Background::StartGuestLoop(GuestLoop::Cdp)))));
    assert!(matches!(s.request, Request::Sleep(1500)));
    let mut polls = 0;
    loop {
        w.step(Event::Slept);
        polls += 1;
        let s = w.step(out("NONE"));
        if !matches!(s.request, Request::Sleep(1500)) {
            assert_eq!(notes(&s), ["WARN: cdp-loop-probe.sh still NONE after 30s"]);
            assert!(matches!(s.request, Request::Run(Command::LoopProbe(GuestLoop::Kite))));
            break;
        }
    }
    assert_eq!(polls, 20);
    let s = w.step(out("NONE"));
    w.step(Event::Slept);
    let s2 = w.step(out("RUNNING"));
    assert_eq!(notes(&s), ["starting guest loop kite-server.sh"]);
    assert_eq!(notes(&s2), ["kite-loop-probe.sh RUNNING", "start-all finished"]);
    assert!(matches!(s2.request, Request::Clock));
}

#[test]
fn missing_machine_without_bundle_hints_in_tooltip() {
    let mut w = worker(false);
    w.step(act(UserAction::InitialStart));
    let s = w.step(out("Error: machine not found"));
    assert!(matches!(s.request, Request::LocatePack));
    let s = w.step(Event::Pack(None));
    assert_eq!(
        notes(&s),
        ["machine 'kite' missing and no kite.smolvmachine bundle found — manual machine create required"]
    );
    let p = pushes(&s);
    assert_eq!(p[0].tooltip, "缺机器：请放 kite.smolvmachine 在托盘旁或设 SMOLVM_TRAY_PACK");
    assert_eq!(p[0].phase, ServicePhase::Starting);
    assert!(is_status(&s));
}

#[test]
fn missing_machine_with_bundle_is_created() {
    let mut w = worker(false);
    w.step(act(UserAction::InitialStart));
    w.step(out(""));
    let s = w.step(Event::Pack(Some("/b/kite.smolvmachine".to_string())));
    assert_eq!(notes(&s), ["machine missing — initializing from /b/kite.smolvmachine"]);
    match &s.request {
        Request::Run(Command::CreateFromPack(p)) => assert_eq!(p, "/b/kite.smolvmachine"),
        other => panic!("unexpected {other:?}"),
    }
    let s = w.step(out("created\n"));
    assert_eq!(notes(&s), ["machine create --from: created"]);
    assert!(is_status(&s));
    let s = w.step(out(""));
    assert_eq!(notes(&s), ["WARN: create --from did not produce the machine"]);
    assert!(is_status(&s));
}

#[test]
fn toggle_before_any_operation_is_handled() {
    let mut w = worker(false);
    let s = w.step(act_at(UserAction::ToggleService, 0));
    assert!(is_status(&s));
    assert_eq!(Note::ToggleDropped.text(), "toggle dropped: start/stop already in progress");
}

#[test]
fn autostart_toggle_pushes_checked_state() {
    let mut w = worker(false);
    let s = w.step(act(UserAction::ToggleAutostart));
    assert!(s.effects.iter().any(|e| matches!(e, Effect::SetAutostart(true))));
    assert_eq!(notes(&s), ["action: ToggleAutostart (cancelling refresh)", "autostart -> true"]);
    assert!(is_status(&s));
    let s = w.step(out(RUNNING));
    let p = pushes(&s);
    assert!(p[0].autostart_checked);
    assert!(p[0].health.vm);
    assert_eq!(p[0].tooltip, "smolvm 服务台");
    assert!(matches!(s.request, Request::NextMessage));
    let s = w.step(act(UserAction::ToggleAutostart));
    assert!(s.effects.iter().any(|e| matches!(e, Effect::SetAutostart(false))));
    assert!(is_status(&s));
}

#[test]
fn restart_chromium_only_when_running() {
    let mut w = worker(false);
    w.step(act(UserAction::RestartChromium));
    let s = w.step(out(STOPPED));
    assert_eq!(notes(&s), ["restart-chromium skipped: VM not running"]);
    assert!(matches!(s.request, Request::NextMessage));
    w.step(act(UserAction::RestartChromium));
    let s = w.step(out(RUNNING));
    assert!(matches!(s.request, Request::Run(Command::RestartChromium)));
    let s = w.step(out("killed\n"));
    assert_eq!(notes(&s), ["cdp chromium restart: killed"]);
}

#[test]
fn open_actions_and_exit() {
    let mut w = worker(false);
    let s = w.step(act(UserAction::OpenCdp));
    assert!(s.effects.iter().any(|e| matches!(e, Effect::Open(Page::Cdp))));
    assert_eq!(Page::Cdp.url(), "http://127.0.0.1:9222");
    assert_eq!(Page::Mcp.url(), "http://127.0.0.1:8090/mcp");
    let s = w.step(act(UserAction::OpenLogs));
    assert!(s.effects.iter().any(|e| matches!(e, Effect::OpenLogDir)));
    let s = w.step(act(UserAction::Exit));
    assert_eq!(notes(&s), ["action: Exit (cancelling refresh)", "exit requested — services left as-is"]);
    assert!(s.effects.iter().any(|e| matches!(e, Effect::ExitUi)));
    assert!(matches!(s.request, Request::Finish));
    let s = w.step(act(UserAction::OpenCdp));
    assert!(matches!(s.request, Request::Finish));
    assert!(s.effects.is_empty());
}

#[test]
fn disconnect_finishes() {
    let mut w = worker(false);
    let s = w.step(Event::Disconnected);
    assert!(matches!(s.request, Request::Finish));
}

#[test]
fn autostart_toggle_twice_returns_to_start() {
    let mut w = worker(true);
    w.step(Event::Timeout(0));
    w.step(out(STOPPED));
    w.step(Event::Clock(1));
    let s1 = w.step(act(UserAction::ToggleAutostart));
    assert!(matches!(s1.effects[1], Effect::SetAutostart(false)));
    assert!(!pushes(&s1).last().unwrap().autostart_checked);
    assert!(matches!(s1.request, Request::NextMessage));
    let s2 = w.step(act(UserAction::ToggleAutostart));
    assert!(matches!(s2.effects[1], Effect::SetAutostart(true)));
    assert!(pushes(&s2).last().unwrap().autostart_checked);
    assert!(matches!(s2.request, Request::NextMessage));
}
