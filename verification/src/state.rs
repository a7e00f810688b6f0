//! What the tray shows: the five health checks, the icon level, the UI
//! bundle, the service phase, and the user's menu actions.
use vstd::prelude::*;

verus! {

/// Icon screen color when every check is up.
pub const GREEN: (u8, u8, u8) = (60, 180, 75);

/// Icon screen color when some but not all checks are up.
pub const YELLOW: (u8, u8, u8) = (220, 180, 40);

/// Icon screen color when no check is up.
pub const RED: (u8, u8, u8) = (200, 60, 60);

/// The five health checks of one refresh.
#[derive(Debug, Clone, Copy, PartialEq, Eq, Structural)]
pub struct Health {
    pub vm: bool,
    pub mcp_port: bool,
    pub mcp_loop: bool,
    pub cdp_port: bool,
    pub cdp_loop: bool,
}

/// 1 for a check that is up, 0 otherwise.
pub open spec fn flag(b: bool) -> nat {
    if b {
        1
    } else {
        0
    }
}

impl Health {
    /// Number of health checks.
    pub const TOTAL: usize = 5;

    /// How many of the five checks are up.
    pub open spec fn spec_up(self) -> nat {
        flag(self.vm) + flag(self.mcp_port) + flag(self.mcp_loop) + flag(self.cdp_port) + flag(
            self.cdp_loop,
        )
    }

    /// The ports and guest loops are only reported up while the VM runs
    /// (they are only probed then).
    pub open spec fn coherent(self) -> bool {
        !self.vm ==> (!self.mcp_port && !self.mcp_loop && !self.cdp_port && !self.cdp_loop)
    }

    /// The icon level for this health: green 5/5, yellow 1-4, red 0.
    pub open spec fn spec_level(self) -> TrayLevel {
        if self.spec_up() == 5 {
            TrayLevel::Green
        } else if self.spec_up() == 0 {
            TrayLevel::Red
        } else {
            TrayLevel::Yellow
        }
    }

    /// Every check down.
    pub open spec fn none() -> Health {
        Health { vm: false, mcp_port: false, mcp_loop: false, cdp_port: false, cdp_loop: false }
    }

    /// Every check down.
    pub fn all_down() -> (h: Health)
        ensures
            h == Health::none(),
    {
        Health { vm: false, mcp_port: false, mcp_loop: false, cdp_port: false, cdp_loop: false }
    }

    /// Number of checks that are up.
    pub fn up(&self) -> (n: usize)
        ensures
            n == self.spec_up(),
            n <= Health::TOTAL,
    {
        let mut n: usize = 0;
        if self.vm {
            n = n + 1;
        }
        if self.mcp_port {
            n = n + 1;
        }
        if self.mcp_loop {
            n = n + 1;
        }
        if self.cdp_port {
            n = n + 1;
        }
        if self.cdp_loop {
            n = n + 1;
        }
        n
    }

    /// The icon level: green when all five checks are up, red when none is,
    /// yellow otherwise.
    pub fn level(&self) -> (l: TrayLevel)
        ensures
            l == self.spec_level(),
            (l == TrayLevel::Green) <==> self.spec_up() == 5,
            (l == TrayLevel::Red) <==> self.spec_up() == 0,
            (l == TrayLevel::Yellow) <==> (1 <= self.spec_up() && self.spec_up() <= 4),
    {
        let up = self.up();
        if up == Health::TOTAL {
            TrayLevel::Green
        } else if up == 0 {
            TrayLevel::Red
        } else {
            TrayLevel::Yellow
        }
    }
}

/// Icon color class.
#[derive(Debug, Clone, Copy, PartialEq, Eq, Structural)]
pub enum TrayLevel {
    Green,
    Yellow,
    Red,
}

impl TrayLevel {
    /// The screen color of the icon for this level.
    pub open spec fn spec_rgb(self) -> (u8, u8, u8) {
        match self {
            TrayLevel::Green => GREEN,
            TrayLevel::Yellow => YELLOW,
            TrayLevel::Red => RED,
        }
    }

    /// The screen color of the icon for this level.
    pub fn rgb(self) -> (c: (u8, u8, u8))
        ensures
            c == self.spec_rgb(),
    {
        match self {
            TrayLevel::Green => GREEN,
            TrayLevel::Yellow => YELLOW,
            TrayLevel::Red => RED,
        }
    }
}

/// A start or stop operation in flight; the menu switch is disabled then.
#[derive(Debug, Clone, Copy, PartialEq, Eq, Structural)]
pub enum ServicePhase {
    Idle,
    Starting,
    Stopping,
}

/// Everything the UI needs for one refresh, sent as one bundle.
#[derive(Debug, Clone)]
pub struct UiState {
    pub health: Health,
    pub tooltip: String,
    pub autostart_checked: bool,
    pub phase: ServicePhase,
}

/// The mathematical content of a `UiState`.
pub struct UiStateView {
    pub health: Health,
    pub tooltip: Seq<char>,
    pub autostart_checked: bool,
    pub phase: ServicePhase,
}

impl View for UiState {
    type V = UiStateView;

    open spec fn view(&self) -> UiStateView {
        UiStateView {
            health: self.health,
            tooltip: self.tooltip@,
            autostart_checked: self.autostart_checked,
            phase: self.phase,
        }
    }
}

impl UiState {
    /// A copy with the same content.
    pub fn duplicate(&self) -> (c: UiState)
        ensures
            c@ == self@,
    {
        UiState {
            health: self.health,
            tooltip: self.tooltip.clone(),
            autostart_checked: self.autostart_checked,
            phase: self.phase,
        }
    }
}

/// UI side of the boundary: the worker's UI updates go through it.
pub trait UiSink {
    fn update(&self, state: &UiState);

    fn exit(&self);
}

/// What the user can ask of the worker from the tray menu.
#[derive(Debug, Clone, Copy, PartialEq, Eq, Structural)]
pub enum UserAction {
    /// One switch in the menu: start when stopped, stop when running.
    ToggleService,
    OpenCdp,
    OpenMcp,
    RestartChromium,
    OpenLogs,
    ToggleAutostart,
    Exit,
    /// Launch-time bootstrap (start everything), not from the menu.
    InitialStart,
}

/// A message to the worker.
#[derive(Debug, Clone, Copy, PartialEq, Eq, Structural)]
pub enum WorkerMsg {
    Act(UserAction),
}

} // verus!
