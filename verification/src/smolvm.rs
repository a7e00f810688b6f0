//! The smolvm command line: which argument vectors each operation runs,
//! with which time budget, and how their output is read. The processes
//! themselves are run by the caller.
use vstd::prelude::*;
use vstd::string::*;
use crate::config::{
    CDP_PORT, CREATE_TIMEOUT_MS, EXEC_TIMEOUT_MS, GUEST_CDP_PORT, GUEST_CDP_PROBE,
    GUEST_CDP_SERVER, GUEST_KITE_PROBE, GUEST_KITE_SERVER, MCP_PORT, RESTART_TIMEOUT_MS,
    STATUS_TIMEOUT_MS, STOP_TIMEOUT_MS, UPDATE_TIMEOUT_MS, VM_NAME,
};
use crate::log::Logger;
use crate::text::{
    append_decimal, contains_ci, contains_ignore_case, decimal, ends_with, ends_with_str,
    trim_end, trim_end_str,
};

verus! {

/// Whether the machine is up.
#[derive(Debug, Clone, Copy, PartialEq, Eq, Structural)]
pub enum VmState {
    Running,
    Stopped,
}

/// One of the two guest watchdog loops.
#[derive(Debug, Clone, Copy, PartialEq, Eq, Structural)]
pub enum GuestLoop {
    /// The CDP chromium console loop.
    Cdp,
    /// The kitewright MCP server loop.
    Kite,
}

impl GuestLoop {
    /// The guest script that runs this loop.
    pub open spec fn spec_server(self) -> Seq<char> {
        match self {
            GuestLoop::Cdp => GUEST_CDP_SERVER@,
            GuestLoop::Kite => GUEST_KITE_SERVER@,
        }
    }

    /// The guest script that echoes RUNNING while this loop is alive.
    pub open spec fn spec_probe(self) -> Seq<char> {
        match self {
            GuestLoop::Cdp => GUEST_CDP_PROBE@,
            GuestLoop::Kite => GUEST_KITE_PROBE@,
        }
    }

    /// The guest script that runs this loop.
    pub fn server(self) -> (s: &'static str)
        ensures
            s@ == self.spec_server(),
    {
        match self {
            GuestLoop::Cdp => GUEST_CDP_SERVER,
            GuestLoop::Kite => GUEST_KITE_SERVER,
        }
    }

    /// The guest script that echoes RUNNING while this loop is alive.
    pub fn probe(self) -> (s: &'static str)
        ensures
            s@ == self.spec_probe(),
    {
        match self {
            GuestLoop::Cdp => GUEST_CDP_PROBE,
            GuestLoop::Kite => GUEST_KITE_PROBE,
        }
    }
}

/// A smolvm command whose combined output is captured.
#[derive(Debug)]
pub enum Command {
    /// `machine status`.
    Status,
    /// A guest loop's probe script, through `machine exec`.
    LoopProbe(GuestLoop),
    /// Published-port insurance on the machine spec.
    UpdatePorts,
    /// `machine stop`.
    Stop,
    /// Kill the guest chromium (its watchdog respawns it).
    RestartChromium,
    /// Create the machine from a bundle file.
    CreateFromPack(String),
}

/// A smolvm command that is spawned detached and not waited on.
#[derive(Debug, Clone, Copy, PartialEq, Eq, Structural)]
pub enum Background {
    /// `machine start` (it blocks until the VM exits, so it is left running).
    StartVm,
    /// A guest loop's server script, through `machine exec -d`.
    StartGuestLoop(GuestLoop),
}

/// A process to run: program, arguments, and the time budget of a captured run.
pub struct Invocation {
    pub program: String,
    pub args: Vec<String>,
    pub timeout_ms: u64,
}

/// The characters of each string.
pub open spec fn strings_view(v: Seq<String>) -> Seq<Seq<char>> {
    v.map_values(|s: String| s@)
}

/// `machine <op> --name kite`.
pub open spec fn machine_args(op: Seq<char>) -> Seq<Seq<char>> {
    seq!["machine"@, op, "--name"@, VM_NAME@]
}

/// `machine exec --name kite -- <guest argv>`: the guest argv goes verbatim after `--`.
pub open spec fn exec_args(guest: Seq<Seq<char>>) -> Seq<Seq<char>> {
    seq!["machine"@, "exec"@, "--name"@, VM_NAME@, "--"@] + guest
}

/// Where a guest script lives.
pub open spec fn script_path(script: Seq<char>) -> Seq<char> {
    "/root/"@ + script
}

/// A published-port spec `HOST:GUEST`.
pub open spec fn port_spec(host: u16, guest: u16) -> Seq<char> {
    decimal(host as nat) + ":"@ + decimal(guest as nat)
}

/// `machine update --name kite -p 8090:8090 -p 9222:9223`.
pub open spec fn update_ports_args() -> Seq<Seq<char>> {
    machine_args("update"@) + seq!["-p"@, port_spec(MCP_PORT, MCP_PORT), "-p"@, port_spec(CDP_PORT, GUEST_CDP_PORT)]
}

/// The guest shell command that kills the CDP chromium.
pub open spec fn restart_chromium_script() -> Seq<char> {
    "kill -9 $(cat /tmp/.cdp-chromium.pid 2>/dev/null) 2>/dev/null; echo killed"@
}

/// The arguments of each captured command.
pub open spec fn command_args(c: Command) -> Seq<Seq<char>> {
    match c {
        Command::Status => machine_args("status"@),
        Command::LoopProbe(w) => exec_args(seq!["sh"@, script_path(w.spec_probe())]),
        Command::UpdatePorts => update_ports_args(),
        Command::Stop => machine_args("stop"@),
        Command::RestartChromium => exec_args(seq!["sh"@, "-c"@, restart_chromium_script()]),
        Command::CreateFromPack(p) => machine_args("create"@) + seq!["--from"@, p@],
    }
}

/// The time budget of each captured command.
pub open spec fn command_timeout(c: Command) -> u64 {
    match c {
        Command::Status => STATUS_TIMEOUT_MS,
        Command::LoopProbe(_) => EXEC_TIMEOUT_MS,
        Command::UpdatePorts => UPDATE_TIMEOUT_MS,
        Command::Stop => STOP_TIMEOUT_MS,
        Command::RestartChromium => RESTART_TIMEOUT_MS,
        Command::CreateFromPack(_) => CREATE_TIMEOUT_MS,
    }
}

/// The arguments of each detached command.
pub open spec fn background_args(b: Background) -> Seq<Seq<char>> {
    match b {
        Background::StartVm => machine_args("start"@),
        Background::StartGuestLoop(w) => seq![
            "machine"@,
            "exec"@,
            "-d"@,
            "--name"@,
            VM_NAME@,
            "--"@,
            "sh"@,
            script_path(w.spec_server()),
        ],
    }
}

/// `machine status` reports a running VM: its output holds `running`, in any
/// ASCII case. (Only ASCII letters lower-case to the letters of `running`, so
/// this is the same test as a full Unicode lower-casing followed by a search.)
pub open spec fn reports_running(output: Seq<char>) -> bool {
    contains_ci(output, "running"@)
}

/// A guest probe reports its loop alive: the output, without trailing white
/// space, ends with `RUNNING`.
pub open spec fn reports_loop_running(output: Seq<char>) -> bool {
    ends_with(trim_end(output), "RUNNING"@)
}

/// `machine status` reports a machine that exists: it is either running or stopped.
pub open spec fn reports_machine(output: Seq<char>) -> bool {
    contains_ci(output, "running"@) || contains_ci(output, "stopped"@)
}

/// The smolvm command line for the machine, through the binary `bin`.
pub struct Smol {
    bin: String,
    log: Logger,
}

fn owned(s: &str) -> (r: String)
    ensures
        r@ == s@,
{
    String::from_str(s)
}

fn machine(op: &str) -> (v: Vec<String>)
    ensures
        strings_view(v@) == machine_args(op@),
{
    let mut v: Vec<String> = Vec::new();
    v.push(owned("machine"));
    v.push(owned(op));
    v.push(owned("--name"));
    v.push(owned(VM_NAME));
    assert(strings_view(v@) =~= machine_args(op@));
    v
}

fn port_pair(host: u16, guest: u16) -> (s: String)
    ensures
        s@ == port_spec(host, guest),
{
    let mut s = String::new();
    append_decimal(&mut s, host as u64);
    s.append(":");
    append_decimal(&mut s, guest as u64);
    assert(s@ =~= port_spec(host, guest));
    s
}

fn script(name: &str) -> (s: String)
    ensures
        s@ == script_path(name@),
{
    let mut s = owned("/root/");
    s.append(name);
    s
}

impl Smol {
    /// The binary that runs the commands.
    pub closed spec fn spec_bin(&self) -> Seq<char> {
        self.bin@
    }

    /// The log the command line belongs to.
    pub closed spec fn spec_log(&self) -> Logger {
        self.log
    }

    /// The command line through `bin`.
    pub fn new(bin: String, log: Logger) -> (s: Smol)
        ensures
            s.spec_bin() == bin@,
            s.spec_log() == log,
    {
        Smol { bin, log }
    }

    /// The log the command line belongs to.
    pub fn log(&self) -> (l: &Logger)
        ensures
            *l == self.spec_log(),
    {
        &self.log
    }

    /// The status of the machine as `machine status` reports it in `output`.
    pub fn status(output: &str) -> (s: VmState)
        ensures
            (s == VmState::Running) == reports_running(output@),
    {
        if contains_ignore_case(output, "running") {
            VmState::Running
        } else {
            VmState::Stopped
        }
    }

    /// Whether a guest probe's `output` reports its loop alive.
    pub fn loop_probe(output: &str) -> (b: bool)
        ensures
            b == reports_loop_running(output@),
    {
        ends_with_str(trim_end_str(output), "RUNNING")
    }

    /// Whether `machine status` reports, in `output`, a machine that exists.
    pub fn machine_exists(output: &str) -> (b: bool)
        ensures
            b == reports_machine(output@),
    {
        contains_ignore_case(output, "running") || contains_ignore_case(output, "stopped")
    }

    /// Run a guest command via `machine exec` (the guest argv is passed verbatim).
    pub fn exec(&self, guest_argv: &Vec<String>, timeout_ms: u64) -> (inv: Invocation)
        ensures
            inv.program@ == self.spec_bin(),
            strings_view(inv.args@) == exec_args(strings_view(guest_argv@)),
            inv.timeout_ms == timeout_ms,
    {
        let mut args: Vec<String> = Vec::new();
        args.push(owned("machine"));
        args.push(owned("exec"));
        args.push(owned("--name"));
        args.push(owned(VM_NAME));
        args.push(owned("--"));
        let mut i: usize = 0;
        while i < guest_argv.len()
            invariant
                i <= guest_argv.len(),
                strings_view(args@) =~= seq!["machine"@, "exec"@, "--name"@, VM_NAME@, "--"@]
                    + strings_view(guest_argv@.subrange(0, i as int)),
            decreases guest_argv.len() - i,
        {
            let ghost before = args@;
            let a = guest_argv[i].clone();
            assert(a@ == guest_argv@[i as int]@);
            args.push(a);
            assert(strings_view(args@) =~= strings_view(before).push(guest_argv@[i as int]@));
            i = i + 1;
            assert(strings_view(guest_argv@.subrange(0, i as int)) =~= strings_view(
                guest_argv@.subrange(0, i - 1),
            ).push(guest_argv@[i - 1]@));
        }
        assert(guest_argv@.subrange(0, guest_argv@.len() as int) =~= guest_argv@);
        Invocation { program: self.bin.clone(), args, timeout_ms }
    }

    /// Idempotent published-port insurance on the machine spec (stopped VM).
    pub fn update_ports(&self) -> (inv: Invocation)
        ensures
            inv.program@ == self.spec_bin(),
            strings_view(inv.args@) == update_ports_args(),
            inv.timeout_ms == UPDATE_TIMEOUT_MS,
    {
        let mut args = machine("update");
        args.push(owned("-p"));
        args.push(port_pair(MCP_PORT, MCP_PORT));
        args.push(owned("-p"));
        args.push(port_pair(CDP_PORT, GUEST_CDP_PORT));
        assert(strings_view(args@) =~= update_ports_args());
        Invocation { program: self.bin.clone(), args, timeout_ms: UPDATE_TIMEOUT_MS }
    }

    /// `machine stop`: VM death clears the guest services and loops.
    pub fn stop(&self) -> (inv: Invocation)
        ensures
            inv.program@ == self.spec_bin(),
            strings_view(inv.args@) == machine_args("stop"@),
            inv.timeout_ms == STOP_TIMEOUT_MS,
    {
        Invocation { program: self.bin.clone(), args: machine("stop"), timeout_ms: STOP_TIMEOUT_MS }
    }

    /// The process that runs a captured command.
    pub fn command(&self, c: &Command) -> (inv: Invocation)
        ensures
            inv.program@ == self.spec_bin(),
            strings_view(inv.args@) == command_args(*c),
            inv.timeout_ms == command_timeout(*c),
    {
        match c {
            Command::Status => Invocation {
                program: self.bin.clone(),
                args: machine("status"),
                timeout_ms: STATUS_TIMEOUT_MS,
            },
            Command::LoopProbe(w) => {
                let mut argv: Vec<String> = Vec::new();
                argv.push(owned("sh"));
                argv.push(script(w.probe()));
                assert(strings_view(argv@) =~= seq!["sh"@, script_path(w.spec_probe())]);
                self.exec(&argv, EXEC_TIMEOUT_MS)
            },
            Command::UpdatePorts => self.update_ports(),
            Command::Stop => self.stop(),
            Command::RestartChromium => {
                let mut argv: Vec<String> = Vec::new();
                argv.push(owned("sh"));
                argv.push(owned("-c"));
                argv.push(
                    owned("kill -9 $(cat /tmp/.cdp-chromium.pid 2>/dev/null) 2>/dev/null; echo killed"),
                );
                assert(strings_view(argv@) =~= seq!["sh"@, "-c"@, restart_chromium_script()]);
                self.exec(&argv, RESTART_TIMEOUT_MS)
            },
            Command::CreateFromPack(p) => {
                let mut args = machine("create");
                args.push(owned("--from"));
                args.push(p.clone());
                assert(strings_view(args@) =~= machine_args("create"@) + seq!["--from"@, p@]);
                Invocation { program: self.bin.clone(), args, timeout_ms: CREATE_TIMEOUT_MS }
            },
        }
    }

    /// The process of a detached command (its time budget is unused: it is not waited on).
    pub fn background(&self, b: Background) -> (inv: Invocation)
        ensures
            inv.program@ == self.spec_bin(),
            strings_view(inv.args@) == background_args(b),
            inv.timeout_ms == 0,
    {
        match b {
            Background::StartVm => Invocation {
                program: self.bin.clone(),
                args: machine("start"),
                timeout_ms: 0,
            },
            Background::StartGuestLoop(w) => {
                let mut args: Vec<String> = Vec::new();
                args.push(owned("machine"));
                args.push(owned("exec"));
                args.push(owned("-d"));
                args.push(owned("--name"));
                args.push(owned(VM_NAME));
                args.push(owned("--"));
                args.push(owned("sh"));
                args.push(script(w.server()));
                assert(strings_view(args@) =~= background_args(b));
                Invocation { program: self.bin.clone(), args, timeout_ms: 0 }
            },
        }
    }
}

} // verus!
