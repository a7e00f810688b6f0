//! Properties of the command lines, the health count and the autostart
//! entries, stated over their literal meaning.
use vstd::prelude::*;
use crate::platform::{escaped, spec_desktop_entry, spec_launch_agent, Escape};
use crate::smolvm::{background_args, command_args, Background, Command, GuestLoop};
use crate::state::{Health, TrayLevel};

verus! {

broadcast use vstd::seq_lib::group_seq_properties;

/// `s` holds `t` as a contiguous piece.
pub open spec fn contains_piece<T>(s: Seq<T>, t: Seq<T>) -> bool {
    exists|i: int| 0 <= i && i + t.len() <= s.len() && #[trigger] s.subrange(i, i + t.len()) == t
}

proof fn lemma_piece_in_middle<T>(a: Seq<T>, t: Seq<T>, b: Seq<T>)
    ensures
        contains_piece(a + t + b, t),
{
    let s = a + t + b;
    assert(s.subrange(a.len() as int, (a.len() + t.len()) as int) =~= t);
}

/// Each guest loop starts from its own server script: the detached start of
/// the CDP loop runs `/root/cdp-server.sh`, that of the kite loop runs
/// `/root/kite-server.sh`, each through `machine exec -d --name kite -- sh`;
/// so the two loops never get the same command line.
pub proof fn law_guest_loop_start_commands(w: GuestLoop)
    ensures
        background_args(Background::StartGuestLoop(w)) == seq![
            "machine"@,
            "exec"@,
            "-d"@,
            "--name"@,
            "kite"@,
            "--"@,
            "sh"@,
            "/root/"@ + (if w == GuestLoop::Cdp {
                "cdp-server.sh"@
            } else {
                "kite-server.sh"@
            }),
        ],
        background_args(Background::StartGuestLoop(GuestLoop::Cdp)) != background_args(
            Background::StartGuestLoop(GuestLoop::Kite),
        ),
{
    reveal_strlit("cdp-server.sh");
    reveal_strlit("kite-server.sh");
    reveal_strlit("/root/");
    let c = background_args(Background::StartGuestLoop(GuestLoop::Cdp));
    let k = background_args(Background::StartGuestLoop(GuestLoop::Kite));
    assert(c[7][6] != k[7][6]);
}

/// Each guest loop is probed by its own probe script: the kite loop by
/// `/root/kite-loop-probe.sh`, the CDP loop by `/root/cdp-loop-probe.sh`,
/// each through `machine exec --name kite -- sh`; the two probes differ.
pub proof fn law_guest_loop_probe_commands(w: GuestLoop)
    ensures
        command_args(Command::LoopProbe(w)) == seq![
            "machine"@,
            "exec"@,
            "--name"@,
            "kite"@,
            "--"@,
            "sh"@,
            "/root/"@ + (if w == GuestLoop::Cdp {
                "cdp-loop-probe.sh"@
            } else {
                "kite-loop-probe.sh"@
            }),
        ],
        command_args(Command::LoopProbe(GuestLoop::Cdp)) != command_args(
            Command::LoopProbe(GuestLoop::Kite),
        ),
{
    reveal_strlit("cdp-loop-probe.sh");
    reveal_strlit("kite-loop-probe.sh");
    reveal_strlit("/root/");
    let c = command_args(Command::LoopProbe(GuestLoop::Cdp));
    let k = command_args(Command::LoopProbe(GuestLoop::Kite));
    assert(c[6][6] != k[6][6]);
}

/// The fixed machine commands, word for word.
pub proof fn law_machine_commands()
    ensures
        command_args(Command::Status) == seq!["machine"@, "status"@, "--name"@, "kite"@],
        command_args(Command::Stop) == seq!["machine"@, "stop"@, "--name"@, "kite"@],
        background_args(Background::StartVm) == seq!["machine"@, "start"@, "--name"@, "kite"@],
        command_args(Command::UpdatePorts) == seq![
            "machine"@,
            "update"@,
            "--name"@,
            "kite"@,
            "-p"@,
            "8090:8090"@,
            "-p"@,
            "9222:9223"@,
        ],
{
    reveal_strlit("8090:8090");
    reveal_strlit("9222:9223");
    reveal_strlit(":");
    reveal_with_fuel(crate::text::decimal, 5);
    assert(crate::text::decimal(8090) =~= seq!['8', '0', '9', '0']);
    assert(crate::text::decimal(9222) =~= seq!['9', '2', '2', '2']);
    assert(crate::text::decimal(9223) =~= seq!['9', '2', '2', '3']);
    assert(command_args(Command::UpdatePorts)[5] =~= "8090:8090"@);
    assert(command_args(Command::UpdatePorts)[7] =~= "9222:9223"@);
}

/// The health count counts each of the five checks on its own: nothing up
/// counts 0, and turning any one check from down to up adds exactly 1,
/// whatever the other four are.
pub proof fn law_up_counts_each_check(h: Health)
    ensures
        Health::none().spec_up() == 0,
        (Health { vm: true, ..h }).spec_up() == (Health { vm: false, ..h }).spec_up() + 1,
        (Health { mcp_port: true, ..h }).spec_up() == (Health { mcp_port: false, ..h }).spec_up()
            + 1,
        (Health { mcp_loop: true, ..h }).spec_up() == (Health { mcp_loop: false, ..h }).spec_up()
            + 1,
        (Health { cdp_port: true, ..h }).spec_up() == (Health { cdp_port: false, ..h }).spec_up()
            + 1,
        (Health { cdp_loop: true, ..h }).spec_up() == (Health { cdp_loop: false, ..h }).spec_up()
            + 1,
{
}

/// The icon is green exactly when all five checks are up and red exactly
/// when none is; any check down keeps it from green.
pub proof fn law_level_from_checks(h: Health)
    ensures
        (h.spec_level() == TrayLevel::Green) <==> (h.vm && h.mcp_port && h.mcp_loop && h.cdp_port
            && h.cdp_loop),
        (h.spec_level() == TrayLevel::Red) <==> !(h.vm || h.mcp_port || h.mcp_loop || h.cdp_port
            || h.cdp_loop),
{
}

/// The LaunchAgent starts the tray at login (`RunAtLoad` is true) and runs
/// the escaped executable path as its program argument.
pub proof fn law_launch_agent_runs_tray_at_login(exe: Seq<char>)
    ensures
        contains_piece(spec_launch_agent(exe), "<key>RunAtLoad</key><true/>"@),
        contains_piece(
            spec_launch_agent(exe),
            "<key>ProgramArguments</key>\n\t<array>\n\t\t<string>"@ + escaped(exe, Escape::Xml)
                + "</string>"@,
        ),
        contains_piece(spec_launch_agent(exe), "<key>Label</key><string>com.smolvm.tray</string>"@),
{
    let head = "<?xml version=\"1.0\" encoding=\"UTF-8\"?>\n<!DOCTYPE plist PUBLIC \"-//Apple//DTD PLIST 1.0//EN\" \"http://www.apple.com/DTDs/PropertyList-1.0.dtd\">\n<plist version=\"1.0\">\n<dict>\n\t<key>Label</key><string>"@;
    let mid = "</string>\n\t<key>ProgramArguments</key>\n\t<array>\n\t\t<string>"@;
    let tail = "</string>\n\t</array>\n\t<key>RunAtLoad</key><true/>\n\t<key>ProcessType</key><string>Interactive</string>\n</dict>\n</plist>\n"@;
    let e = escaped(exe, Escape::Xml);
    let s = spec_launch_agent(exe);
    assert(s == head + "com.smolvm.tray"@ + mid + e + tail);
    reveal_strlit("</string>\n\t<key>ProgramArguments</key>\n\t<array>\n\t\t<string>");
    reveal_strlit("</string>\n\t</array>\n\t<key>RunAtLoad</key><true/>\n\t<key>ProcessType</key><string>Interactive</string>\n</dict>\n</plist>\n");
    reveal_strlit("<?xml version=\"1.0\" encoding=\"UTF-8\"?>\n<!DOCTYPE plist PUBLIC \"-//Apple//DTD PLIST 1.0//EN\" \"http://www.apple.com/DTDs/PropertyList-1.0.dtd\">\n<plist version=\"1.0\">\n<dict>\n\t<key>Label</key><string>");
    reveal_strlit("<key>RunAtLoad</key><true/>");
    reveal_strlit("<key>ProgramArguments</key>\n\t<array>\n\t\t<string>");
    reveal_strlit("</string>");
    reveal_strlit("com.smolvm.tray");
    reveal_strlit("<key>Label</key><string>com.smolvm.tray</string>");
    let run = "<key>RunAtLoad</key><true/>"@;
    let t1 = tail.subrange(0, 21);
    let t3 = tail.subrange(48, tail.len() as int);
    assert(tail =~= t1 + run + t3);
    lemma_piece_in_middle(head + "com.smolvm.tray"@ + mid + e + t1, run, t3);
    assert(head + "com.smolvm.tray"@ + mid + e + t1 + run + t3 =~= s);
    let pa = "<key>ProgramArguments</key>\n\t<array>\n\t\t<string>"@;
    let m1 = mid.subrange(0, 11);
    assert(mid =~= m1 + pa);
    let close = "</string>"@;
    let t9 = tail.subrange(9, tail.len() as int);
    assert(tail =~= close + t9);
    lemma_piece_in_middle(head + "com.smolvm.tray"@ + m1, pa + e + close, t9);
    assert(head + "com.smolvm.tray"@ + m1 + (pa + e + close) + t9 =~= s);
    let lab = "<key>Label</key><string>com.smolvm.tray</string>"@;
    let h0 = head.subrange(0, head.len() - 24);
    let hl = head.subrange(head.len() - 24, head.len() as int);
    assert(head =~= h0 + hl);
    let m9 = mid.subrange(9, mid.len() as int);
    assert(hl + "com.smolvm.tray"@ + mid.subrange(0, 9) =~= lab);
    lemma_piece_in_middle(h0, lab, m9 + e + tail);
    assert(h0 + lab + (m9 + e + tail) =~= s);
}

/// The desktop entry is enabled for autostart and executes the quoted,
/// escaped executable path.
pub proof fn law_desktop_entry_runs_tray(exe: Seq<char>)
    ensures
        contains_piece(spec_desktop_entry(exe), "X-GNOME-Autostart-enabled=true"@),
        contains_piece(spec_desktop_entry(exe), "Exec=\""@ + escaped(exe, Escape::Quotes) + "\""@),
{
    let head = "[Desktop Entry]\nType=Application\nName=smolvm-tray\nComment=smolvm kite VM tray\nExec=\""@;
    let tail = "\"\nTerminal=false\nX-GNOME-Autostart-enabled=true\n"@;
    let e = escaped(exe, Escape::Quotes);
    let s = spec_desktop_entry(exe);
    reveal_strlit("[Desktop Entry]\nType=Application\nName=smolvm-tray\nComment=smolvm kite VM tray\nExec=\"");
    reveal_strlit("\"\nTerminal=false\nX-GNOME-Autostart-enabled=true\n");
    reveal_strlit("X-GNOME-Autostart-enabled=true");
    reveal_strlit("Exec=\"");
    reveal_strlit("\"");
    let en = "X-GNOME-Autostart-enabled=true"@;
    let a1 = tail.subrange(0, 17);
    let a3 = tail.subrange(47, tail.len() as int);
    assert(tail =~= a1 + en + a3);
    lemma_piece_in_middle(head + e + a1, en, a3);
    assert(head + e + a1 + en + a3 =~= s);
    let ex = "Exec=\""@;
    let h0 = head.subrange(0, head.len() - 6);
    assert(head =~= h0 + ex);
    let q = "\""@;
    let a0 = tail.subrange(1, tail.len() as int);
    assert(tail =~= q + a0);
    lemma_piece_in_middle(h0, ex + e + q, a0);
    assert(h0 + (ex + e + q) + a0 =~= s);
}

} // verus!
