//! What the worker writes to the log, and the text of each line.
use vstd::prelude::*;
use vstd::string::*;
use crate::smolvm::GuestLoop;
use crate::state::{Health, ServicePhase, UserAction};
use crate::text::{append_decimal, bool_text, decimal, trim, trim_str};

verus! {

/// One log message of the worker.
#[derive(Debug)]
pub enum Note {
    /// A toggle arrived while a start/stop was in flight.
    ToggleDropped,
    /// A user action is being handled.
    Action(UserAction),
    /// A refresh finished with these checks.
    Refreshed(Health),
    /// Chromium restart asked for while the VM is down.
    RestartSkipped,
    /// Output of the chromium kill command.
    RestartDone(String),
    /// The autostart toggle was switched to this value.
    Autostart(bool),
    /// Exit asked for; the services are left running.
    ExitRequested,
    /// The start-all sequence is over.
    StartAllFinished,
    /// The machine does not exist and no bundle was found.
    MachineMissingNoPack,
    /// The machine does not exist; it is created from this bundle.
    MachineInit(String),
    /// Output of `machine create --from`.
    MachineCreated(String),
    /// The machine still does not exist after the create.
    MachineCreateFailed,
    /// The stop-all sequence begins.
    StoppingAll,
    /// Output of `machine stop`.
    MachineStopped(String),
    /// The service phase changed.
    Phase(ServicePhase),
    /// The VM was already running at start.
    VmAlreadyRunning,
    /// Output of the published-port update.
    PortsUpdated(String),
    /// The VM came up.
    VmRunning,
    /// Still waiting for the VM after this many seconds.
    WaitingBoot(u32),
    /// The VM did not come up within the boot window.
    VmBootTimeout,
    /// The guest loop was already running.
    LoopAlreadyRunning(GuestLoop),
    /// The guest loop is being started.
    LoopStarting(GuestLoop),
    /// The guest loop came up.
    LoopRunning(GuestLoop),
    /// The guest loop did not come up within its window.
    LoopTimeout(GuestLoop),
}

/// The name `{:?}` prints for a user action.
pub open spec fn action_name(a: UserAction) -> Seq<char> {
    match a {
        UserAction::ToggleService => "ToggleService"@,
        UserAction::OpenCdp => "OpenCdp"@,
        UserAction::OpenMcp => "OpenMcp"@,
        UserAction::RestartChromium => "RestartChromium"@,
        UserAction::OpenLogs => "OpenLogs"@,
        UserAction::ToggleAutostart => "ToggleAutostart"@,
        UserAction::Exit => "Exit"@,
        UserAction::InitialStart => "InitialStart"@,
    }
}

/// The name `{:?}` prints for a service phase.
pub open spec fn phase_name(p: ServicePhase) -> Seq<char> {
    match p {
        ServicePhase::Idle => "Idle"@,
        ServicePhase::Starting => "Starting"@,
        ServicePhase::Stopping => "Stopping"@,
    }
}

/// The log text of the refresh summary.
pub open spec fn refreshed_text(h: Health) -> Seq<char> {
    "refresh vm="@ + bool_text(h.vm) + " mcp_port="@ + bool_text(h.mcp_port) + " mcp_loop="@
        + bool_text(h.mcp_loop) + " cdp_port="@ + bool_text(h.cdp_port) + " cdp_loop="@
        + bool_text(h.cdp_loop)
}

impl Note {
    /// The text of the log line.
    pub open spec fn spec_text(self) -> Seq<char> {
        match self {
            Note::ToggleDropped => "toggle dropped: start/stop already in progress"@,
            Note::Action(a) => "action: "@ + action_name(a) + " (cancelling refresh)"@,
            Note::Refreshed(h) => refreshed_text(h),
            Note::RestartSkipped => "restart-chromium skipped: VM not running"@,
            Note::RestartDone(out) => "cdp chromium restart: "@ + trim(out@),
            Note::Autostart(on) => "autostart -> "@ + bool_text(on),
            Note::ExitRequested => "exit requested — services left as-is"@,
            Note::StartAllFinished => "start-all finished"@,
            Note::MachineMissingNoPack =>
                "machine 'kite' missing and no kite.smolvmachine bundle found — manual machine create required"@,
            Note::MachineInit(pack) => "machine missing — initializing from "@ + pack@,
            Note::MachineCreated(out) => "machine create --from: "@ + trim(out@),
            Note::MachineCreateFailed => "WARN: create --from did not produce the machine"@,
            Note::StoppingAll => "stopping all"@,
            Note::MachineStopped(out) => "machine stop: "@ + trim(out@),
            Note::Phase(p) => "phase -> "@ + phase_name(p),
            Note::VmAlreadyRunning => "vm already running"@,
            Note::PortsUpdated(out) => "machine update ports: "@ + trim(out@),
            Note::VmRunning => "vm is running"@,
            Note::WaitingBoot(secs) => "waiting for vm boot ("@ + decimal(secs as nat) + "/120s)"@,
            Note::VmBootTimeout => "WARN: vm not running after 120s"@,
            Note::LoopAlreadyRunning(w) => w.spec_probe() + " already RUNNING"@,
            Note::LoopStarting(w) => "starting guest loop "@ + w.spec_server(),
            Note::LoopRunning(w) => w.spec_probe() + " RUNNING"@,
            Note::LoopTimeout(w) => "WARN: "@ + w.spec_probe() + " still NONE after 30s"@,
        }
    }

    /// The text of the log line.
    pub fn text(&self) -> (t: String)
        ensures
            t@ == self.spec_text(),
    {
        match self {
            Note::ToggleDropped => String::from_str("toggle dropped: start/stop already in progress"),
            Note::Action(a) => {
                let mut t = String::from_str("action: ");
                t.append(action_str(*a));
                t.append(" (cancelling refresh)");
                t
            },
            Note::Refreshed(h) => {
                let mut t = String::from_str("refresh vm=");
                t.append(bool_str(h.vm));
                t.append(" mcp_port=");
                t.append(bool_str(h.mcp_port));
                t.append(" mcp_loop=");
                t.append(bool_str(h.mcp_loop));
                t.append(" cdp_port=");
                t.append(bool_str(h.cdp_port));
                t.append(" cdp_loop=");
                t.append(bool_str(h.cdp_loop));
                t
            },
            Note::RestartSkipped => String::from_str("restart-chromium skipped: VM not running"),
            Note::RestartDone(out) => {
                let mut t = String::from_str("cdp chromium restart: ");
                t.append(trim_str(out.as_str()));
                t
            },
            Note::Autostart(on) => {
                let mut t = String::from_str("autostart -> ");
                t.append(bool_str(*on));
                t
            },
            Note::ExitRequested => String::from_str("exit requested — services left as-is"),
            Note::StartAllFinished => String::from_str("start-all finished"),
            Note::MachineMissingNoPack => String::from_str(
                "machine 'kite' missing and no kite.smolvmachine bundle found — manual machine create required",
            ),
            Note::MachineInit(pack) => {
                let mut t = String::from_str("machine missing — initializing from ");
                t.append(pack.as_str());
                t
            },
            Note::MachineCreated(out) => {
                let mut t = String::from_str("machine create --from: ");
                t.append(trim_str(out.as_str()));
                t
            },
            Note::MachineCreateFailed => String::from_str(
                "WARN: create --from did not produce the machine",
            ),
            Note::StoppingAll => String::from_str("stopping all"),
            Note::MachineStopped(out) => {
                let mut t = String::from_str("machine stop: ");
                t.append(trim_str(out.as_str()));
                t
            },
            Note::Phase(p) => {
                let mut t = String::from_str("phase -> ");
                t.append(phase_str(*p));
                t
            },
            Note::VmAlreadyRunning => String::from_str("vm already running"),
            Note::PortsUpdated(out) => {
                let mut t = String::from_str("machine update ports: ");
                t.append(trim_str(out.as_str()));
                t
            },
            Note::VmRunning => String::from_str("vm is running"),
            Note::WaitingBoot(secs) => {
                let mut t = String::from_str("waiting for vm boot (");
                append_decimal(&mut t, *secs as u64);
                t.append("/120s)");
                t
            },
            Note::VmBootTimeout => String::from_str("WARN: vm not running after 120s"),
            Note::LoopAlreadyRunning(w) => {
                let mut t = String::from_str(w.probe());
                t.append(" already RUNNING");
                t
            },
            Note::LoopStarting(w) => {
                let mut t = String::from_str("starting guest loop ");
                t.append(w.server());
                t
            },
            Note::LoopRunning(w) => {
                let mut t = String::from_str(w.probe());
                t.append(" RUNNING");
                t
            },
            Note::LoopTimeout(w) => {
                let mut t = String::from_str("WARN: ");
                t.append(w.probe());
                t.append(" still NONE after 30s");
                t
            },
        }
    }
}

/// `"true"` or `"false"`.
pub fn bool_str(b: bool) -> (s: &'static str)
    ensures
        s@ == bool_text(b),
{
    if b {
        proof {
            reveal_strlit("true");
        }
        "true"
    } else {
        proof {
            reveal_strlit("false");
        }
        "false"
    }
}

/// The name `{:?}` prints for a user action.
pub fn action_str(a: UserAction) -> (s: &'static str)
    ensures
        s@ == action_name(a),
{
    match a {
        UserAction::ToggleService => "ToggleService",
        UserAction::OpenCdp => "OpenCdp",
        UserAction::OpenMcp => "OpenMcp",
        UserAction::RestartChromium => "RestartChromium",
        UserAction::OpenLogs => "OpenLogs",
        UserAction::ToggleAutostart => "ToggleAutostart",
        UserAction::Exit => "Exit",
        UserAction::InitialStart => "InitialStart",
    }
}

/// The name `{:?}` prints for a service phase.
pub fn phase_str(p: ServicePhase) -> (s: &'static str)
    ensures
        s@ == phase_name(p),
{
    match p {
        ServicePhase::Idle => "Idle",
        ServicePhase::Starting => "Starting",
        ServicePhase::Stopping => "Stopping",
    }
}

} // verus!
