//! Configuration: names, ports, scripts, time budgets, and the decisions
//! that read environment overrides (the values are read by the caller).
use vstd::prelude::*;

verus! {

/// Name of the smolvm machine.
pub const VM_NAME: &'static str = "kite";

/// Host port of the kitewright MCP server.
pub const MCP_PORT: u16 = 8090;

/// Host port of the CDP chromium console.
pub const CDP_PORT: u16 = 9222;

/// Guest port behind the host CDP port (chromium DevTools).
pub const GUEST_CDP_PORT: u16 = 9223;

/// HTTP path probed on the MCP port (not /mcp: that SSE endpoint holds the connection).
pub const MCP_PROBE_PATH: &'static str = "/";

/// HTTP path probed on the CDP port.
pub const CDP_PROBE_PATH: &'static str = "/json/version";

/// Guest script that runs the kite server watchdog loop.
pub const GUEST_KITE_SERVER: &'static str = "kite-server.sh";

/// Guest script that runs the CDP chromium watchdog loop.
pub const GUEST_CDP_SERVER: &'static str = "cdp-server.sh";

/// Guest script that echoes RUNNING while the kite loop is alive.
pub const GUEST_KITE_PROBE: &'static str = "kite-loop-probe.sh";

/// Guest script that echoes RUNNING while the CDP loop is alive.
pub const GUEST_CDP_PROBE: &'static str = "cdp-loop-probe.sh";

/// Minimum time between two scheduled refreshes.
pub const REFRESH_INTERVAL_MS: u64 = 8000;

/// How long the worker waits for a message before it looks at the refresh timer.
pub const RECV_TIMEOUT_MS: u64 = 100;

/// Time budget of `machine status`.
pub const STATUS_TIMEOUT_MS: u64 = 9000;

/// Time budget of a guest command.
pub const EXEC_TIMEOUT_MS: u64 = 10000;

/// Time budget of one port probe.
pub const HTTP_TIMEOUT_MS: u64 = 1500;

/// Time budget of `machine update`.
pub const UPDATE_TIMEOUT_MS: u64 = 30000;

/// Time budget of `machine stop`.
pub const STOP_TIMEOUT_MS: u64 = 90000;

/// Time budget of `machine create --from`.
pub const CREATE_TIMEOUT_MS: u64 = 120000;

/// Time budget of the guest command that kills chromium.
pub const RESTART_TIMEOUT_MS: u64 = 30000;

/// Pause between two VM boot polls.
pub const BOOT_POLL_MS: u64 = 3000;

/// Number of VM boot polls (40 x 3 s = 120 s).
pub const BOOT_POLLS: u8 = 40;

/// Pause between two guest-loop polls.
pub const LOOP_POLL_MS: u64 = 1500;

/// Number of guest-loop polls (20 x 1.5 s = 30 s).
pub const LOOP_POLLS: u8 = 20;

/// Pause after `machine stop` before the refresh.
pub const STOP_SETTLE_MS: u64 = 2000;

/// Windows-only fallback location of the smolvm binary (the local distribution layout).
pub const WINDOWS_DEFAULT_SMOLVM: &'static str = "D:\\smolvm-1.8.3-windows-x86_64\\smolvm.exe";

/// Port probes use HTTP unless `SMOLVM_TRAY_PORT_PROBE` is exactly `tcp`.
/// `value` is the variable's value when it is set (and valid Unicode).
pub fn http_probe_enabled(value: Option<&str>) -> (b: bool)
    ensures
        b == match value {
            Some(v) => v@ != "tcp"@,
            None => true,
        },
{
    match value {
        Some(v) => !str_equal(v, "tcp"),
        None => true,
    }
}

/// The launch-time start-all runs unless `SMOLVM_TRAY_NO_AUTOSTART` is exactly `1`.
/// `value` is the variable's value when it is set (and valid Unicode).
pub fn autostart_on_launch(value: Option<&str>) -> (b: bool)
    ensures
        b == match value {
            Some(v) => v@ != "1"@,
            None => true,
        },
{
    match value {
        Some(v) => !str_equal(v, "1"),
        None => true,
    }
}

/// Whether two strings hold the same characters.
pub fn str_equal(a: &str, b: &str) -> (r: bool)
    ensures
        r == (a@ == b@),
{
    let x = crate::text::chars_of(a);
    let y = crate::text::chars_of(b);
    if x.len() != y.len() {
        return false;
    }
    let mut i: usize = 0;
    while i < x.len()
        invariant
            x@ == a@,
            y@ == b@,
            x.len() == y.len(),
            i <= x.len(),
            forall|k: int| 0 <= k < i ==> x@[k] == y@[k],
        decreases x.len() - i,
    {
        if x[i] != y[i] {
            return false;
        }
        i = i + 1;
    }
    assert(a@ =~= b@);
    true
}

/// Where the smolvm binary comes from.
#[derive(Debug, Clone, Copy, PartialEq, Eq, Structural)]
pub enum SmolvmSource {
    /// `$SMOLVM_TRAY_SMOLVM`.
    Env,
    /// `<exe_dir>/smolvm` (packed layout: tray and smolvm side by side).
    ExeDir,
    /// `<exe_dir>/smolvm.exe` (Windows).
    ExeDirExe,
    /// `WINDOWS_DEFAULT_SMOLVM` (Windows).
    WindowsDefault,
    /// The first `smolvm` found on `$PATH`.
    PathScan,
    /// The bare name `smolvm`, left to the OS to resolve.
    BareName,
}

/// The resolution order of the smolvm binary: a non-empty
/// `$SMOLVM_TRAY_SMOLVM`, then `<exe_dir>/smolvm`, then (Windows)
/// `<exe_dir>/smolvm.exe` and the local distribution path, then a `$PATH`
/// hit, then the bare name. Each flag says whether that candidate exists.
pub fn resolve_smolvm(
    env_nonempty: bool,
    exe_dir_hit: bool,
    exe_dir_exe_hit: bool,
    windows_default_hit: bool,
    path_hit: bool,
) -> (s: SmolvmSource)
    ensures
        (s == SmolvmSource::Env) == env_nonempty,
        (s == SmolvmSource::ExeDir) == (!env_nonempty && exe_dir_hit),
        (s == SmolvmSource::ExeDirExe) == (!env_nonempty && !exe_dir_hit && exe_dir_exe_hit),
        (s == SmolvmSource::WindowsDefault) == (!env_nonempty && !exe_dir_hit && !exe_dir_exe_hit
            && windows_default_hit),
        (s == SmolvmSource::PathScan) == (!env_nonempty && !exe_dir_hit && !exe_dir_exe_hit
            && !windows_default_hit && path_hit),
        (s == SmolvmSource::BareName) == (!env_nonempty && !exe_dir_hit && !exe_dir_exe_hit
            && !windows_default_hit && !path_hit),
{
    if env_nonempty {
        SmolvmSource::Env
    } else if exe_dir_hit {
        SmolvmSource::ExeDir
    } else if exe_dir_exe_hit {
        SmolvmSource::ExeDirExe
    } else if windows_default_hit {
        SmolvmSource::WindowsDefault
    } else if path_hit {
        SmolvmSource::PathScan
    } else {
        SmolvmSource::BareName
    }
}

/// Index of the first candidate that exists (the `$PATH` scan picks the
/// first directory that holds the binary).
pub fn first_hit(hits: &Vec<bool>) -> (r: Option<usize>)
    ensures
        match r {
            Some(i) => i < hits.len() && hits@[i as int] && forall|k: int|
                0 <= k < i ==> !#[trigger] hits@[k],
            None => forall|k: int| 0 <= k < hits.len() ==> !#[trigger] hits@[k],
        },
{
    let mut i: usize = 0;
    while i < hits.len()
        invariant
            i <= hits.len(),
            forall|k: int| 0 <= k < i ==> !#[trigger] hits@[k],
        decreases hits.len() - i,
    {
        if hits[i] {
            return Some(i);
        }
        i = i + 1;
    }
    None
}

/// Where the machine bundle (`kite.smolvmachine`) comes from.
#[derive(Debug, Clone, Copy, PartialEq, Eq, Structural)]
pub enum PackSource {
    /// `$SMOLVM_TRAY_PACK`.
    Env,
    /// `kite.smolvmachine` beside the tray executable.
    BesideExe,
}

/// The machine bundle: a non-empty `$SMOLVM_TRAY_PACK` that names an
/// existing file, else `kite.smolvmachine` beside the executable when it
/// exists, else none.
pub fn pack_file(env_hit: bool, beside_exe_hit: bool) -> (p: Option<PackSource>)
    ensures
        (p == Some(PackSource::Env)) == env_hit,
        (p == Some(PackSource::BesideExe)) == (!env_hit && beside_exe_hit),
        (p is None) == (!env_hit && !beside_exe_hit),
{
    if env_hit {
        Some(PackSource::Env)
    } else if beside_exe_hit {
        Some(PackSource::BesideExe)
    } else {
        None
    }
}

} // verus!
