use smolvm_tray::log::Logger;
use smolvm_tray::smolvm::{Background, Command, GuestLoop, Smol, VmState};

fn smol() -> Smol {
    Smol::new("/opt/smolvm".to_string(), Logger::new("/tmp/t.log".to_string()))
}

#[test]
fn status_parsing() {
    // The live format on 1.8.3:
    let running_line = "Machine 'kite': running (PID: 22720)\n";
    assert!(running_line.to_lowercase().contains("running"));
    assert_eq!(Smol::status(running_line), VmState::Running);
    let stopped_line = "Machine 'kite': stopped\n";
    assert!(!stopped_line.to_lowercase().contains("running"));
    assert_eq!(Smol::status(stopped_line), VmState::Stopped);
    // The old `machine stats` output must not read as running.
    let stats_line = "no machine running\n";
    assert!(!stats_line.contains("running") || {
        stats_line.to_lowercase().contains("running") && stats_line.contains("no ")
    });
    assert_eq!(Smol::status(stats_line), VmState::Running);
}

#[test]
fn status_ignores_ascii_case() {
    assert_eq!(Smol::status("Machine 'kite': RUNNING"), VmState::Running);
    assert_eq!(Smol::status("Machine 'kite': RuNnInG"), VmState::Running);
    assert_eq!(Smol::status(""), VmState::Stopped);
    assert_eq!(Smol::status("runnin"), VmState::Stopped);
}

#[test]
fn exec_argv_forwarding() {
    // The guest argv must go verbatim after `--` (no shell on the host).
    let guest = vec!["sh".to_string(), "/root/kite-loop-probe.sh".to_string()];
    let inv = smol().exec(&guest, 10000);
    let args = inv.args;
    assert_eq!(args[..5], ["machine", "exec", "--name", "kite", "--"]);
    assert_eq!(args[4], "--");
    assert_eq!(args[6], "/root/kite-loop-probe.sh");
    assert_eq!(inv.program, "/opt/smolvm");
    assert_eq!(inv.timeout_ms, 10000);
}

#[test]
fn loop_probe_reads_trailing_running() {
    assert!(Smol::loop_probe("RUNNING\n"));
    assert!(Smol::loop_probe("watchdog RUNNING  \r\n"));
    assert!(!Smol::loop_probe("NONE\n"));
    assert!(!Smol::loop_probe("RUNNING then died\n"));
    assert!(!Smol::loop_probe("running\n"));
    assert!(!Smol::loop_probe(""));
}

#[test]
fn machine_exists_from_status() {
    assert!(Smol::machine_exists("Machine 'kite': stopped\n"));
    assert!(Smol::machine_exists("Machine 'kite': running (PID: 1)\n"));
    assert!(!Smol::machine_exists("Error: machine 'kite' not found\n"));
}

#[test]
fn update_ports_publishes_both_ports() {
    let inv = smol().update_ports();
    assert_eq!(
        inv.args,
        ["machine", "update", "--name", "kite", "-p", "8090:8090", "-p", "9222:9223"]
    );
    assert_eq!(inv.timeout_ms, 30000);
}

#[test]
fn stop_and_status_commands() {
    let s = smol();
    let inv = s.stop();
    assert_eq!(inv.args, ["machine", "stop", "--name", "kite"]);
    assert_eq!(inv.timeout_ms, 90000);
    let inv = s.command(&Command::Status);
    assert_eq!(inv.args, ["machine", "status", "--name", "kite"]);
    assert_eq!(inv.timeout_ms, 9000);
}

#[test]
fn loop_probe_and_restart_commands() {
    let s = smol();
    let inv = s.command(&Command::LoopProbe(GuestLoop::Cdp));
    assert_eq!(inv.args, ["machine", "exec", "--name", "kite", "--", "sh", "/root/cdp-loop-probe.sh"]);
    let inv = s.command(&Command::RestartChromium);
    assert_eq!(
        inv.args,
        [
            "machine",
            "exec",
            "--name",
            "kite",
            "--",
            "sh",
            "-c",
            "kill -9 $(cat /tmp/.cdp-chromium.pid 2>/dev/null) 2>/dev/null; echo killed"
        ]
    );
    assert_eq!(inv.timeout_ms, 30000);
    let inv = s.command(&Command::CreateFromPack("/b/kite.smolvmachine".to_string()));
    assert_eq!(inv.args, ["machine", "create", "--name", "kite", "--from", "/b/kite.smolvmachine"]);
}

#[test]
fn detached_commands() {
    let s = smol();
    let inv = s.background(Background::StartVm);
    assert_eq!(inv.args, ["machine", "start", "--name", "kite"]);
    let inv = s.background(Background::StartGuestLoop(GuestLoop::Kite));
    assert_eq!(inv.args, ["machine", "exec", "-d", "--name", "kite", "--", "sh", "/root/kite-server.sh"]);
    assert_eq!(GuestLoop::Kite.probe(), "kite-loop-probe.sh");
    assert_eq!(GuestLoop::Cdp.server(), "cdp-server.sh");
}
