use smolvm_tray::state::{Health, ServicePhase, TrayLevel, UiState, GREEN, RED, YELLOW};
use smolvm_tray::tray::{color, marked, present, switch_label};

fn health(n: usize) -> Health {
    Health { vm: n > 0, mcp_port: n > 1, mcp_loop: n > 2, cdp_port: n > 3, cdp_loop: n > 4 }
}

#[test]
fn level_by_count() {
    assert_eq!(health(5).level(), TrayLevel::Green);
    for n in 1..5 {
        assert_eq!(health(n).up(), n);
        assert_eq!(health(n).level(), TrayLevel::Yellow);
    }
    assert_eq!(health(0).level(), TrayLevel::Red);
    assert_eq!(Health::TOTAL, 5);
}

#[test]
fn level_colors() {
    assert_eq!(TrayLevel::Green.rgb(), GREEN);
    assert_eq!(TrayLevel::Yellow.rgb(), YELLOW);
    assert_eq!(TrayLevel::Red.rgb(), RED);
    assert_eq!(GREEN, (60, 180, 75));
    assert_eq!(color(1, 2, 3), [1, 2, 3, 255]);
}

#[test]
fn marked_rows() {
    assert_eq!(marked(true, "Kite VM", "运行中", "已停止"), "● Kite VM — 运行中");
    assert_eq!(marked(false, "Kite VM", "运行中", "已停止"), "○ Kite VM — 已停止");
}

#[test]
fn switch_disabled_while_busy() {
    assert_eq!(switch_label(ServicePhase::Starting, false), ("⏳ 启动中…（请勿重复点击）", false));
    assert_eq!(switch_label(ServicePhase::Stopping, true), ("⏳ 停止中…", false));
    assert_eq!(switch_label(ServicePhase::Idle, true), ("⏹ 停止服务", true));
    assert_eq!(switch_label(ServicePhase::Idle, false), ("▶ 启动服务（确保在线）", true));
}

#[test]
fn present_whole_menu() {
    let state = UiState {
        health: Health { vm: true, mcp_port: true, mcp_loop: false, cdp_port: false, cdp_loop: true },
        tooltip: "smolvm 服务台 · 3/5 在线".to_string(),
        autostart_checked: true,
        phase: ServicePhase::Idle,
    };
    let v = present(&state);
    assert_eq!(v.level, TrayLevel::Yellow);
    assert_eq!(v.tooltip, "smolvm 服务台 · 3/5 在线");
    assert_eq!(v.kite_vm, "● Kite VM — 运行中");
    assert_eq!(v.mcp_port, "● MCP 入站端口 (8090) — 监听中");
    assert_eq!(v.mcp_loop, "○ MCP 循环 — 未运行");
    assert_eq!(v.cdp_port, "○ CDP 入站端口 (9222) — 未运行");
    assert_eq!(v.cdp_loop, "● CDP 循环 — 运行中");
    assert!(!v.can_open_cdp);
    assert!(v.can_open_mcp);
    assert!(v.can_restart_chromium);
    assert!(v.autostart_checked);
    assert_eq!(v.switch_label, "⏹ 停止服务");
    assert!(v.switch_enabled);
}
