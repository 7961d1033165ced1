//! The frame renderer: one snapshot in, one deterministic sequence of
//! terminal instructions out.
//!
//! A frame is a list of [`Instruction`] values: cursor and clearing
//! directives, foreground color changes, and text runs. The exact list a
//! snapshot produces — every character and every color change, in order —
//! is defined by [`spec_frame`], and [`draw_frame`] is proved to produce
//! precisely that list. A terminal sink outside the library applies the
//! instructions to the output stream.

use vstd::prelude::*;

use crate::color;
use crate::color::Color;
use crate::fmt;
use crate::fmt::{dec_str, fixed1_str, fixed2_str, padded_dec_str};
use crate::snapshot::{DiskStat, NetworkStat, ProcessStat, SystemSnapshot, top_count};
use crate::units;
use crate::units::{
    spec_disk_used, spec_gib_hundredths, spec_gib_tenths, spec_mib_hundredths, spec_mib_tenths,
    spec_percent_tenths,
};

verus! {

/// One terminal instruction of a frame.
#[derive(Debug, Clone, PartialEq, Eq)]
pub enum Instruction {
    /// Move the cursor to row 0, column 0.
    MoveToOrigin,
    /// Clear from the cursor to the end of the screen.
    ClearFromCursorDown,
    /// Clear the whole screen.
    ClearAll,
    /// Set the foreground color.
    SetColor(Color),
    /// Reset colors to the terminal default.
    ResetColor,
    /// Write a run of text.
    Text(String),
}

/// The mathematical value of an instruction: text as a character sequence.
pub ghost enum InstrV {
    MoveToOrigin,
    ClearFromCursorDown,
    ClearAll,
    SetColor(Color),
    ResetColor,
    Text(Seq<char>),
}

impl View for Instruction {
    type V = InstrV;

    open spec fn view(&self) -> InstrV {
        match self {
            Instruction::MoveToOrigin => InstrV::MoveToOrigin,
            Instruction::ClearFromCursorDown => InstrV::ClearFromCursorDown,
            Instruction::ClearAll => InstrV::ClearAll,
            Instruction::SetColor(c) => InstrV::SetColor(*c),
            Instruction::ResetColor => InstrV::ResetColor,
            Instruction::Text(s) => InstrV::Text(s@),
        }
    }
}

/// The values of a whole instruction list.
pub open spec fn views(s: Seq<Instruction>) -> Seq<InstrV> {
    s.map_values(|i: Instruction| i@)
}

/// The title line.
pub open spec fn title_text() -> Seq<char> {
    "=== Rust Conky System Monitor ===\n"@
}

/// An empty line.
pub open spec fn blank_line() -> Seq<char> {
    "\n"@
}

/// The CPU usage figure: percentage in hundredths shown with one decimal.
pub open spec fn cpu_usage_text(usage_hundredths: nat) -> Seq<char> {
    "CPU: "@ + fixed1_str(usage_hundredths / 10) + "% "@
}

/// The core-count suffix of the CPU line.
pub open spec fn core_count_text(cores: nat) -> Seq<char> {
    "("@ + dec_str(cores) + " cores)\n"@
}

/// The load-average line: the three values in hundredths, two decimals each.
pub open spec fn load_avg_text(one: nat, five: nat, fifteen: nat) -> Seq<char> {
    "Load Average: "@ + fixed2_str(one) + ", "@ + fixed2_str(five) + ", "@ + fixed2_str(fifteen)
        + "\n"@
}

/// The memory line: used and total in hundredths of a GiB, percentage in
/// tenths.
pub open spec fn memory_text(used: nat, total: nat) -> Seq<char> {
    "Memory: "@ + fixed2_str(spec_gib_hundredths(used)) + "GB / "@ + fixed2_str(
        spec_gib_hundredths(total),
    ) + "GB ("@ + fixed1_str(spec_percent_tenths(used, total)) + "%)"@
}

/// The swap line, formatted like the memory line; a zero total shows 0.0%.
pub open spec fn swap_text(used: nat, total: nat) -> Seq<char> {
    "Swap:   "@ + fixed2_str(spec_gib_hundredths(used)) + "GB / "@ + fixed2_str(
        spec_gib_hundredths(total),
    ) + "GB ("@ + fixed1_str(spec_percent_tenths(used, total)) + "%)"@
}

/// One disk line: name, mount point, used and total in tenths of a GiB,
/// percentage in tenths; used is `total - available`.
pub open spec fn disk_line_text(
    name: Seq<char>,
    mount: Seq<char>,
    total: nat,
    available: nat,
) -> Seq<char> {
    let used = spec_disk_used(total, available);
    "  "@ + name + " ("@ + mount + ") "@ + fixed1_str(spec_gib_tenths(used)) + "GB / "@
        + fixed1_str(spec_gib_tenths(total)) + "GB ("@ + fixed1_str(
        spec_percent_tenths(used, total),
    ) + "%)\n"@
}

/// One network line: received and transmitted traffic in hundredths of a
/// MiB, with directional arrows.
pub open spec fn network_line_text(interface: Seq<char>, received: nat, transmitted: nat) -> Seq<
    char,
> {
    "  "@ + interface + ": ↓ "@ + fixed2_str(spec_mib_hundredths(received)) + "MB ↑ "@
        + fixed2_str(spec_mib_hundredths(transmitted)) + "MB\n"@
}

/// One process line: pid right-aligned to six columns, CPU percentage in
/// tenths, memory in tenths of a MiB, then the name.
pub open spec fn process_line_text(
    name: Seq<char>,
    pid: nat,
    cpu_hundredths: nat,
    memory: nat,
) -> Seq<char> {
    "  "@ + padded_dec_str(pid, 6) + " "@ + fixed1_str(cpu_hundredths / 10) + "% "@ + fixed1_str(
        spec_mib_tenths(memory),
    ) + "MB "@ + name + "\n"@
}

/// The uptime line: whole hours, then whole minutes of the remainder.
pub open spec fn uptime_text(uptime_seconds: nat) -> Seq<char> {
    "Uptime: "@ + dec_str(uptime_seconds / 3600) + " hours, "@ + dec_str(
        (uptime_seconds % 3600) / 60,
    ) + " minutes\n"@
}

/// A frame starts by homing the cursor and clearing forward, so a redraw
/// never flickers a fully cleared screen.
pub open spec fn spec_prologue() -> Seq<InstrV> {
    seq![InstrV::MoveToOrigin, InstrV::ClearFromCursorDown]
}

/// The title block: title in cyan, then a blank line.
pub open spec fn spec_title_block() -> Seq<InstrV> {
    seq![
        InstrV::SetColor(Color::Cyan),
        InstrV::Text(title_text()),
        InstrV::ResetColor,
        InstrV::Text(blank_line()),
    ]
}

/// The CPU block: usage in its threshold color, core count and load
/// averages in the block's green.
pub open spec fn spec_cpu_block(s: SystemSnapshot) -> Seq<InstrV> {
    seq![
        InstrV::SetColor(Color::Green),
        InstrV::SetColor(color::spec_cpu_color(s.cpu_usage_hundredths as nat)),
        InstrV::Text(cpu_usage_text(s.cpu_usage_hundredths as nat)),
        InstrV::SetColor(Color::Green),
        InstrV::Text(core_count_text(s.cpu_count as nat)),
        InstrV::Text(
            load_avg_text(
                s.load_average_hundredths.0 as nat,
                s.load_average_hundredths.1 as nat,
                s.load_average_hundredths.2 as nat,
            ),
        ),
        InstrV::Text(blank_line()),
        InstrV::ResetColor,
    ]
}

/// The memory block: the memory line in its threshold color, then the swap
/// line in its own, each against the block's blue.
pub open spec fn spec_memory_block(s: SystemSnapshot) -> Seq<InstrV> {
    seq![
        InstrV::SetColor(Color::Blue),
        InstrV::SetColor(
            color::spec_memory_color(s.memory_used_bytes as nat, s.memory_total_bytes as nat),
        ),
        InstrV::Text(memory_text(s.memory_used_bytes as nat, s.memory_total_bytes as nat)),
        InstrV::SetColor(Color::Blue),
        InstrV::SetColor(
            color::spec_swap_color(s.swap_used_bytes as nat, s.swap_total_bytes as nat),
        ),
        InstrV::Text(blank_line()),
        InstrV::Text(swap_text(s.swap_used_bytes as nat, s.swap_total_bytes as nat)),
        InstrV::ResetColor,
        InstrV::Text(blank_line()),
        InstrV::Text(blank_line()),
    ]
}

/// The two instructions of one disk line: its threshold color, then the
/// line.
pub open spec fn disk_entry(d: DiskStat) -> Seq<InstrV> {
    seq![
        InstrV::SetColor(
            color::spec_disk_color(
                spec_disk_used(d.total_bytes as nat, d.available_bytes as nat),
                d.total_bytes as nat,
            ),
        ),
        InstrV::Text(
            disk_line_text(d.name@, d.mount_point@, d.total_bytes as nat, d.available_bytes as nat),
        ),
    ]
}

/// The lines of the first `i` disks, in snapshot order.
pub open spec fn spec_disk_lines(ds: Seq<DiskStat>, i: int) -> Seq<InstrV>
    decreases i,
{
    if i <= 0 || i > ds.len() {
        Seq::empty()
    } else {
        spec_disk_lines(ds, i - 1) + disk_entry(ds[i - 1])
    }
}

/// The disk block: omitted entirely — no header, no lines — when the disk
/// list is empty.
pub open spec fn spec_disk_block(s: SystemSnapshot) -> Seq<InstrV> {
    if s.disks@.len() == 0 {
        Seq::empty()
    } else {
        seq![InstrV::SetColor(Color::Magenta), InstrV::Text("Disks:\n"@), InstrV::ResetColor]
            + spec_disk_lines(s.disks@, s.disks@.len() as int) + seq![
            InstrV::ResetColor,
            InstrV::Text(blank_line()),
        ]
    }
}

/// The single instruction of one network line; no color thresholding.
pub open spec fn network_entry(n: NetworkStat) -> Seq<InstrV> {
    seq![
        InstrV::Text(
            network_line_text(
                n.interface_name@,
                n.received_bytes as nat,
                n.transmitted_bytes as nat,
            ),
        ),
    ]
}

/// The lines of the first `i` network interfaces, in snapshot order.
pub open spec fn spec_network_lines(ns: Seq<NetworkStat>, i: int) -> Seq<InstrV>
    decreases i,
{
    if i <= 0 || i > ns.len() {
        Seq::empty()
    } else {
        spec_network_lines(ns, i - 1) + network_entry(ns[i - 1])
    }
}

/// The network block: omitted entirely when the interface list is empty.
pub open spec fn spec_network_block(s: SystemSnapshot) -> Seq<InstrV> {
    if s.networks@.len() == 0 {
        Seq::empty()
    } else {
        seq![
            InstrV::SetColor(Color::Yellow),
            InstrV::Text("Network Interfaces:\n"@),
            InstrV::ResetColor,
        ] + spec_network_lines(s.networks@, s.networks@.len() as int) + seq![
            InstrV::Text(blank_line()),
        ]
    }
}

/// The two instructions of one process line: its threshold color, then the
/// line.
pub open spec fn process_entry(p: ProcessStat) -> Seq<InstrV> {
    seq![
        InstrV::SetColor(color::spec_process_color(p.cpu_usage_hundredths as nat)),
        InstrV::Text(
            process_line_text(
                p.name@,
                p.pid as nat,
                p.cpu_usage_hundredths as nat,
                p.memory_bytes as nat,
            ),
        ),
    ]
}

/// The lines of the first `i` processes, in the source's order — the
/// renderer never re-sorts them.
pub open spec fn spec_process_lines(ps: Seq<ProcessStat>, i: int) -> Seq<InstrV>
    decreases i,
{
    if i <= 0 || i > ps.len() {
        Seq::empty()
    } else {
        spec_process_lines(ps, i - 1) + process_entry(ps[i - 1])
    }
}

/// How many processes one frame shows at most.
pub const TOP_PROCESS_LIMIT: usize = 5;

/// The process block: at most [`TOP_PROCESS_LIMIT`] lines, omitted entirely
/// when the process list is empty.
pub open spec fn spec_process_block(s: SystemSnapshot) -> Seq<InstrV> {
    if s.processes@.len() == 0 {
        Seq::empty()
    } else {
        seq![
            InstrV::SetColor(Color::Cyan),
            InstrV::Text("Top Processes (by CPU):\n"@),
            InstrV::ResetColor,
        ] + spec_process_lines(s.processes@, top_count(s.processes@, TOP_PROCESS_LIMIT as nat))
            + seq![InstrV::ResetColor, InstrV::Text(blank_line())]
    }
}

/// The uptime block, in fixed green.
pub open spec fn spec_uptime_block(uptime_seconds: nat) -> Seq<InstrV> {
    seq![InstrV::SetColor(Color::Green), InstrV::Text(uptime_text(uptime_seconds)), InstrV::ResetColor]
}

/// The complete frame of one snapshot: the eight sections in fixed order.
pub open spec fn spec_frame(s: SystemSnapshot) -> Seq<InstrV> {
    spec_prologue() + spec_title_block() + spec_cpu_block(s) + spec_memory_block(s)
        + spec_disk_block(s) + spec_network_block(s) + spec_process_block(s) + spec_uptime_block(
        s.uptime_seconds as nat,
    )
}

/// The full-screen clear used outside the per-frame path: clear everything,
/// then home the cursor.
pub open spec fn spec_clear_frame() -> Seq<InstrV> {
    seq![InstrV::ClearAll, InstrV::MoveToOrigin]
}

/// Appends one instruction, tracked at the value level.
fn push_instr(out: &mut Vec<Instruction>, i: Instruction)
    ensures
        views(final(out)@) == views(old(out)@).push(i@),
{
    let ghost v0 = out@;
    out.push(i);
    proof {
        assert(views(out@) =~= views(v0).push(out@[out@.len() - 1]@));
    }
}

/// Appends the frame prologue.
fn push_prologue(out: &mut Vec<Instruction>)
    ensures
        views(final(out)@) == views(old(out)@) + spec_prologue(),
{
    push_instr(out, Instruction::MoveToOrigin);
    push_instr(out, Instruction::ClearFromCursorDown);
    assert(views(out@) =~= views(old(out)@) + spec_prologue());
}

/// Appends the title block.
fn push_title_block(out: &mut Vec<Instruction>)
    ensures
        views(final(out)@) == views(old(out)@) + spec_title_block(),
{
    push_instr(out, Instruction::SetColor(Color::Cyan));
    push_instr(out, Instruction::Text(String::from_str("=== Rust Conky System Monitor ===\n")));
    push_instr(out, Instruction::ResetColor);
    push_instr(out, Instruction::Text(String::from_str("\n")));
    assert(views(out@) =~= views(old(out)@) + spec_title_block());
}

/// Appends the CPU block.
fn push_cpu_block(out: &mut Vec<Instruction>, s: &SystemSnapshot)
    ensures
        views(final(out)@) == views(old(out)@) + spec_cpu_block(*s),
{
    push_instr(out, Instruction::SetColor(Color::Green));
    push_instr(out, Instruction::SetColor(color::cpu_color(s.cpu_usage_hundredths)));
    let mut t = String::new();
    t.append("CPU: ");
    fmt::push_fixed1(&mut t, s.cpu_usage_hundredths as u128 / 10);
    t.append("% ");
    assert(t@ =~= cpu_usage_text(s.cpu_usage_hundredths as nat));
    push_instr(out, Instruction::Text(t));
    push_instr(out, Instruction::SetColor(Color::Green));
    let mut c = String::new();
    c.append("(");
    fmt::push_dec(&mut c, s.cpu_count as u128);
    c.append(" cores)\n");
    assert(c@ =~= core_count_text(s.cpu_count as nat));
    push_instr(out, Instruction::Text(c));
    let mut l = String::new();
    l.append("Load Average: ");
    fmt::push_fixed2(&mut l, s.load_average_hundredths.0 as u128);
    l.append(", ");
    fmt::push_fixed2(&mut l, s.load_average_hundredths.1 as u128);
    l.append(", ");
    fmt::push_fixed2(&mut l, s.load_average_hundredths.2 as u128);
    l.append("\n");
    assert(l@ =~= load_avg_text(
        s.load_average_hundredths.0 as nat,
        s.load_average_hundredths.1 as nat,
        s.load_average_hundredths.2 as nat,
    ));
    push_instr(out, Instruction::Text(l));
    push_instr(out, Instruction::Text(String::from_str("\n")));
    push_instr(out, Instruction::ResetColor);
    assert(views(out@) =~= views(old(out)@) + spec_cpu_block(*s));
}

/// Builds one memory-style line: a label, used and total in hundredths of a
/// GiB, and a percentage in tenths.
fn usage_line(label: &str, used: u64, total: u64) -> (r: String)
    ensures
        r@ == label@ + fixed2_str(spec_gib_hundredths(used as nat)) + "GB / "@ + fixed2_str(
            spec_gib_hundredths(total as nat),
        ) + "GB ("@ + fixed1_str(spec_percent_tenths(used as nat, total as nat)) + "%)"@,
{
    let mut t = String::new();
    t.append(label);
    fmt::push_fixed2(&mut t, units::gib_hundredths(used));
    t.append("GB / ");
    fmt::push_fixed2(&mut t, units::gib_hundredths(total));
    t.append("GB (");
    fmt::push_fixed1(&mut t, units::percent_tenths(used, total));
    t.append("%)");
    assert(t@ =~= label@ + fixed2_str(spec_gib_hundredths(used as nat)) + "GB / "@ + fixed2_str(
        spec_gib_hundredths(total as nat),
    ) + "GB ("@ + fixed1_str(spec_percent_tenths(used as nat, total as nat)) + "%)"@);
    t
}

/// Appends the memory and swap block.
fn push_memory_block(out: &mut Vec<Instruction>, s: &SystemSnapshot)
    ensures
        views(final(out)@) == views(old(out)@) + spec_memory_block(*s),
{
    push_instr(out, Instruction::SetColor(Color::Blue));
    push_instr(
        out,
        Instruction::SetColor(color::memory_color(s.memory_used_bytes, s.memory_total_bytes)),
    );
    let m = usage_line("Memory: ", s.memory_used_bytes, s.memory_total_bytes);
    assert(m@ =~= memory_text(s.memory_used_bytes as nat, s.memory_total_bytes as nat));
    push_instr(out, Instruction::Text(m));
    push_instr(out, Instruction::SetColor(Color::Blue));
    push_instr(
        out,
        Instruction::SetColor(color::swap_color(s.swap_used_bytes, s.swap_total_bytes)),
    );
    push_instr(out, Instruction::Text(String::from_str("\n")));
    let w = usage_line("Swap:   ", s.swap_used_bytes, s.swap_total_bytes);
    assert(w@ =~= swap_text(s.swap_used_bytes as nat, s.swap_total_bytes as nat));
    push_instr(out, Instruction::Text(w));
    push_instr(out, Instruction::ResetColor);
    push_instr(out, Instruction::Text(String::from_str("\n")));
    push_instr(out, Instruction::Text(String::from_str("\n")));
    assert(views(out@) =~= views(old(out)@) + spec_memory_block(*s));
}

/// Appends the disk block, or nothing when there is no disk.
fn push_disk_block(out: &mut Vec<Instruction>, s: &SystemSnapshot)
    ensures
        views(final(out)@) == views(old(out)@) + spec_disk_block(*s),
{
    if s.disks.len() == 0 {
        assert(views(out@) =~= views(old(out)@) + spec_disk_block(*s));
        return ;
    }
    push_instr(out, Instruction::SetColor(Color::Magenta));
    push_instr(out, Instruction::Text(String::from_str("Disks:\n")));
    push_instr(out, Instruction::ResetColor);
    let ghost v1 = views(out@);
    let mut i: usize = 0;
    while i < s.disks.len()
        invariant
            i <= s.disks@.len(),
            views(out@) == v1 + spec_disk_lines(s.disks@, i as int),
        decreases s.disks@.len() - i,
    {
        let d = &s.disks[i];
        let used = units::disk_used(d.total_bytes, d.available_bytes);
        push_instr(out, Instruction::SetColor(color::disk_color(used, d.total_bytes)));
        let mut t = String::new();
        t.append("  ");
        t.append(d.name.as_str());
        t.append(" (");
        t.append(d.mount_point.as_str());
        t.append(") ");
        fmt::push_fixed1(&mut t, units::gib_tenths(used));
        t.append("GB / ");
        fmt::push_fixed1(&mut t, units::gib_tenths(d.total_bytes));
        t.append("GB (");
        fmt::push_fixed1(&mut t, units::percent_tenths(used, d.total_bytes));
        t.append("%)\n");
        assert(t@ =~= disk_line_text(
            d.name@,
            d.mount_point@,
            d.total_bytes as nat,
            d.available_bytes as nat,
        ));
        push_instr(out, Instruction::Text(t));
        proof {
            assert(views(out@) =~= v1 + spec_disk_lines(s.disks@, i + 1));
        }
        i = i + 1;
    }
    push_instr(out, Instruction::ResetColor);
    push_instr(out, Instruction::Text(String::from_str("\n")));
    assert(views(out@) =~= views(old(out)@) + spec_disk_block(*s));
}

/// Appends the network block, or nothing when there is no interface.
fn push_network_block(out: &mut Vec<Instruction>, s: &SystemSnapshot)
    ensures
        views(final(out)@) == views(old(out)@) + spec_network_block(*s),
{
    if s.networks.len() == 0 {
        assert(views(out@) =~= views(old(out)@) + spec_network_block(*s));
        return ;
    }
    push_instr(out, Instruction::SetColor(Color::Yellow));
    push_instr(out, Instruction::Text(String::from_str("Network Interfaces:\n")));
    push_instr(out, Instruction::ResetColor);
    let ghost v1 = views(out@);
    let mut i: usize = 0;
    while i < s.networks.len()
        invariant
            i <= s.networks@.len(),
            views(out@) == v1 + spec_network_lines(s.networks@, i as int),
        decreases s.networks@.len() - i,
    {
        let n = &s.networks[i];
        let mut t = String::new();
        t.append("  ");
        t.append(n.interface_name.as_str());
        t.append(": ↓ ");
        fmt::push_fixed2(&mut t, units::mib_hundredths(n.received_bytes));
        t.append("MB ↑ ");
        fmt::push_fixed2(&mut t, units::mib_hundredths(n.transmitted_bytes));
        t.append("MB\n");
        assert(t@ =~= network_line_text(
            n.interface_name@,
            n.received_bytes as nat,
            n.transmitted_bytes as nat,
        ));
        push_instr(out, Instruction::Text(t));
        proof {
            assert(views(out@) =~= v1 + spec_network_lines(s.networks@, i + 1));
        }
        i = i + 1;
    }
    push_instr(out, Instruction::Text(String::from_str("\n")));
    assert(views(out@) =~= views(old(out)@) + spec_network_block(*s));
}

/// Appends the top-processes block, or nothing when there is no process.
fn push_process_block(out: &mut Vec<Instruction>, s: &SystemSnapshot)
    ensures
        views(final(out)@) == views(old(out)@) + spec_process_block(*s),
{
    let top = s.top_processes(TOP_PROCESS_LIMIT);
    if top.len() == 0 {
        assert(views(out@) =~= views(old(out)@) + spec_process_block(*s));
        return ;
    }
    push_instr(out, Instruction::SetColor(Color::Cyan));
    push_instr(out, Instruction::Text(String::from_str("Top Processes (by CPU):\n")));
    push_instr(out, Instruction::ResetColor);
    let ghost v1 = views(out@);
    let mut i: usize = 0;
    while i < top.len()
        invariant
            i <= top@.len(),
            top@.len() == top_count(s.processes@, TOP_PROCESS_LIMIT as nat),
            forall|k: int|
                0 <= k < top@.len() ==> crate::snapshot::process_stat_eq(
                    #[trigger] top@[k],
                    s.processes@[k],
                ),
            views(out@) == v1 + spec_process_lines(s.processes@, i as int),
        decreases top@.len() - i,
    {
        let p = &top[i];
        push_instr(out, Instruction::SetColor(color::process_color(p.cpu_usage_hundredths)));
        let mut t = String::new();
        t.append("  ");
        fmt::push_padded_dec(&mut t, p.pid as u128, 6);
        t.append(" ");
        fmt::push_fixed1(&mut t, p.cpu_usage_hundredths as u128 / 10);
        t.append("% ");
        fmt::push_fixed1(&mut t, units::mib_tenths(p.memory_bytes));
        t.append("MB ");
        t.append(p.name.as_str());
        t.append("\n");
        assert(t@ =~= process_line_text(
            s.processes@[i as int].name@,
            s.processes@[i as int].pid as nat,
            s.processes@[i as int].cpu_usage_hundredths as nat,
            s.processes@[i as int].memory_bytes as nat,
        ));
        push_instr(out, Instruction::Text(t));
        proof {
            assert(views(out@) =~= v1 + spec_process_lines(s.processes@, i + 1));
        }
        i = i + 1;
    }
    push_instr(out, Instruction::ResetColor);
    push_instr(out, Instruction::Text(String::from_str("\n")));
    assert(views(out@) =~= views(old(out)@) + spec_process_block(*s));
}

/// Appends the uptime block.
fn push_uptime_block(out: &mut Vec<Instruction>, uptime_seconds: u64)
    ensures
        views(final(out)@) == views(old(out)@) + spec_uptime_block(uptime_seconds as nat),
{
    push_instr(out, Instruction::SetColor(Color::Green));
    let mut t = String::new();
    t.append("Uptime: ");
    fmt::push_dec(&mut t, uptime_seconds as u128 / 3600);
    t.append(" hours, ");
    fmt::push_dec(&mut t, (uptime_seconds as u128 % 3600) / 60);
    t.append(" minutes\n");
    assert(t@ =~= uptime_text(uptime_seconds as nat));
    push_instr(out, Instruction::Text(t));
    push_instr(out, Instruction::ResetColor);
    assert(views(out@) =~= views(old(out)@) + spec_uptime_block(uptime_seconds as nat));
}

/// Renders one snapshot as a complete frame: exactly the instruction
/// sequence of [`spec_frame`], the eight sections in fixed order. Pure —
/// the snapshot is never mutated, and any snapshot renders without panic.
pub fn draw_frame(s: &SystemSnapshot) -> (r: Vec<Instruction>)
    ensures
        views(r@) == spec_frame(*s),
{
    let mut out: Vec<Instruction> = Vec::new();
    assert(views(out@) =~= Seq::<InstrV>::empty());
    push_prologue(&mut out);
    push_title_block(&mut out);
    push_cpu_block(&mut out, s);
    push_memory_block(&mut out, s);
    push_disk_block(&mut out, s);
    push_network_block(&mut out, s);
    push_process_block(&mut out, s);
    push_uptime_block(&mut out, s.uptime_seconds);
    assert(views(out@) =~= spec_frame(*s));
    out
}

/// The full-screen clear: exactly [`spec_clear_frame`].
pub fn clear_screen_frame() -> (r: Vec<Instruction>)
    ensures
        views(r@) == spec_clear_frame(),
{
    let mut out: Vec<Instruction> = Vec::new();
    push_instr(&mut out, Instruction::ClearAll);
    push_instr(&mut out, Instruction::MoveToOrigin);
    assert(views(out@) =~= spec_clear_frame());
    out
}

/// The first `i` processes render as exactly `i` lines of two
/// instructions each.
pub proof fn lemma_process_lines_len(ps: Seq<ProcessStat>, i: int)
    requires
        0 <= i <= ps.len(),
    ensures
        spec_process_lines(ps, i).len() == 2 * i,
    decreases i,
{
    if i > 0 {
        lemma_process_lines_len(ps, i - 1);
    }
}

/// The rendered process lines keep the source's order: the `k`-th pair of
/// instructions is the color and the line of the `k`-th listed process —
/// the renderer never re-sorts.
pub proof fn lemma_process_lines_order(ps: Seq<ProcessStat>, i: int, k: int)
    requires
        0 <= k < i <= ps.len(),
    ensures
        spec_process_lines(ps, i)[2 * k] == process_entry(ps[k])[0],
        spec_process_lines(ps, i)[2 * k + 1] == process_entry(ps[k])[1],
    decreases i,
{
    lemma_process_lines_len(ps, i - 1);
    if k < i - 1 {
        lemma_process_lines_order(ps, i - 1, k);
    }
}

/// A frame holds at most [`TOP_PROCESS_LIMIT`] process lines, however many
/// processes the snapshot lists.
pub proof fn lemma_process_block_bounded(s: SystemSnapshot)
    ensures
        spec_process_lines(s.processes@, top_count(s.processes@, TOP_PROCESS_LIMIT as nat)).len()
            <= 2 * TOP_PROCESS_LIMIT,
{
    lemma_process_lines_len(s.processes@, top_count(s.processes@, TOP_PROCESS_LIMIT as nat));
}

/// An empty disk list leaves the disk block entirely out of the frame:
/// zero instructions, header included.
pub proof fn lemma_disk_block_empty(s: SystemSnapshot)
    requires
        s.disks@.len() == 0,
    ensures
        spec_disk_block(s) == Seq::<InstrV>::empty(),
{
}

/// An empty interface list leaves the network block entirely out of the
/// frame.
pub proof fn lemma_network_block_empty(s: SystemSnapshot)
    requires
        s.networks@.len() == 0,
    ensures
        spec_network_block(s) == Seq::<InstrV>::empty(),
{
}

/// An empty process list leaves the process block entirely out of the
/// frame.
pub proof fn lemma_process_block_empty(s: SystemSnapshot)
    requires
        s.processes@.len() == 0,
    ensures
        spec_process_block(s) == Seq::<InstrV>::empty(),
{
}

} // verus!
