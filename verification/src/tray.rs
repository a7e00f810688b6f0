//! What the tray displays for a UI state: icon level, tooltip, the five
//! menu rows, which entries are enabled, and the start/stop switch.
use vstd::prelude::*;
use vstd::string::*;
use crate::state::{ServicePhase, TrayLevel, UiState};

verus! {

/// The tooltip shown before the first refresh lands.
pub const STARTING_TOOLTIP: &'static str = "smolvm 服务台 · 正在启动…";

/// An opaque RGBA pixel color.
pub fn color(r: u8, g: u8, b: u8) -> (c: [u8; 4])
    ensures
        c@ == seq![r, g, b, 255u8],
{
    let c = [r, g, b, 255u8];
    assert(c@ =~= seq![r, g, b, 255u8]);
    c
}

/// A menu row: a filled dot and `up_text` when up, a hollow dot and
/// `down_text` otherwise, after the label.
pub open spec fn spec_marked(up: bool, label: Seq<char>, up_text: Seq<char>, down_text: Seq<char>) -> Seq<char> {
    if up {
        "● "@ + label + " — "@ + up_text
    } else {
        "○ "@ + label + " — "@ + down_text
    }
}

/// A menu row: `● label — up_text` or `○ label — down_text`.
pub fn marked(up: bool, label: &str, up_text: &str, down_text: &str) -> (s: String)
    ensures
        s@ == spec_marked(up, label@, up_text@, down_text@),
{
    let mut s = if up {
        String::from_str("● ")
    } else {
        String::from_str("○ ")
    };
    s.append(label);
    s.append(" — ");
    if up {
        s.append(up_text);
    } else {
        s.append(down_text);
    }
    s
}

/// The switch label for a phase and VM state.
pub open spec fn spec_switch_label(phase: ServicePhase, vm: bool) -> Seq<char> {
    match phase {
        ServicePhase::Starting => "⏳ 启动中…（请勿重复点击）"@,
        ServicePhase::Stopping => "⏳ 停止中…"@,
        ServicePhase::Idle => if vm {
            "⏹ 停止服务"@
        } else {
            "▶ 启动服务（确保在线）"@
        },
    }
}

/// The single start/stop switch: one switch, never two concepts, and never
/// clickable while a start or stop is in flight.
pub fn switch_label(phase: ServicePhase, vm: bool) -> (r: (&'static str, bool))
    ensures
        r.0@ == spec_switch_label(phase, vm),
        r.1 == (phase == ServicePhase::Idle),
{
    match phase {
        ServicePhase::Starting => ("⏳ 启动中…（请勿重复点击）", false),
        ServicePhase::Stopping => ("⏳ 停止中…", false),
        ServicePhase::Idle => if vm {
            ("⏹ 停止服务", true)
        } else {
            ("▶ 启动服务（确保在线）", true)
        },
    }
}

/// Everything the tray shows for one UI state.
pub struct TrayView {
    pub level: TrayLevel,
    pub tooltip: String,
    pub kite_vm: String,
    pub mcp_port: String,
    pub mcp_loop: String,
    pub cdp_port: String,
    pub cdp_loop: String,
    pub can_open_cdp: bool,
    pub can_open_mcp: bool,
    pub can_restart_chromium: bool,
    pub autostart_checked: bool,
    pub switch_label: String,
    pub switch_enabled: bool,
}

/// What the tray shows for `state`: the icon level of its health, its
/// tooltip, one row per check, the CDP/MCP entries enabled when their port
/// answers, the chromium restart enabled when the VM runs, the autostart
/// check, and the switch.
pub fn present(state: &UiState) -> (v: TrayView)
    ensures
        v.level == state.health.spec_level(),
        v.tooltip@ == state.tooltip@,
        v.kite_vm@ == spec_marked(state.health.vm, "Kite VM"@, "运行中"@, "已停止"@),
        v.mcp_port@ == spec_marked(state.health.mcp_port, "MCP 入站端口 (8090)"@, "监听中"@, "未运行"@),
        v.mcp_loop@ == spec_marked(state.health.mcp_loop, "MCP 循环"@, "运行中"@, "未运行"@),
        v.cdp_port@ == spec_marked(state.health.cdp_port, "CDP 入站端口 (9222)"@, "监听中"@, "未运行"@),
        v.cdp_loop@ == spec_marked(state.health.cdp_loop, "CDP 循环"@, "运行中"@, "未运行"@),
        v.can_open_cdp == state.health.cdp_port,
        v.can_open_mcp == state.health.mcp_port,
        v.can_restart_chromium == state.health.vm,
        v.autostart_checked == state.autostart_checked,
        v.switch_label@ == spec_switch_label(state.phase, state.health.vm),
        v.switch_enabled == (state.phase == ServicePhase::Idle),
{
    let h = state.health;
    let (label, enabled) = switch_label(state.phase, h.vm);
    TrayView {
        level: h.level(),
        tooltip: state.tooltip.clone(),
        kite_vm: marked(h.vm, "Kite VM", "运行中", "已停止"),
        mcp_port: marked(h.mcp_port, "MCP 入站端口 (8090)", "监听中", "未运行"),
        mcp_loop: marked(h.mcp_loop, "MCP 循环", "运行中", "未运行"),
        cdp_port: marked(h.cdp_port, "CDP 入站端口 (9222)", "监听中", "未运行"),
        cdp_loop: marked(h.cdp_loop, "CDP 循环", "运行中", "未运行"),
        can_open_cdp: h.cdp_port,
        can_open_mcp: h.mcp_port,
        can_restart_chromium: h.vm,
        autostart_checked: state.autostart_checked,
        switch_label: String::from_str(label),
        switch_enabled: enabled,
    }
}

} // verus!
