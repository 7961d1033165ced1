use rust_conky::color::Color;
use rust_conky::color::{cpu_color, disk_color, memory_color, process_color, swap_color};
use rust_conky::frame::{clear_screen_frame, draw_frame, Instruction};
use rust_conky::snapshot::{DiskStat, NetworkStat, ProcessStat, SystemSnapshot};
use rust_conky::units::{disk_used, gib_hundredths, gib_tenths, mib_hundredths, mib_tenths, percent_tenths};

fn base_snapshot() -> SystemSnapshot {
    SystemSnapshot {
        cpu_usage_hundredths: 0,
        cpu_count: 1,
        load_average_hundredths: (0, 0, 0),
        memory_used_bytes: 0,
        memory_total_bytes: 1,
        swap_used_bytes: 0,
        swap_total_bytes: 0,
        disks: Vec::new(),
        networks: Vec::new(),
        processes: Vec::new(),
        uptime_seconds: 0,
    }
}

fn text(s: &str) -> Instruction {
    Instruction::Text(s.to_string())
}

fn frame_texts(frame: &[Instruction]) -> String {
    let mut all = String::new();
    for i in frame {
        if let Instruction::Text(t) = i {
            all.push_str(t);
        }
    }
    all
}

#[test]
fn cpu_color_follows_threshold_table() {
    // Values are percent in hundredths.
    assert_eq!(cpu_color(8500), Color::Red);
    assert_eq!(cpu_color(7000), Color::Yellow);
    assert_eq!(cpu_color(1000), Color::Green);
    // Thresholds are exclusive: exactly 80% does not exceed the red bound
    // and falls through to the next band; a hair above is red.
    assert_eq!(cpu_color(8000), Color::Yellow);
    assert_eq!(cpu_color(8001), Color::Red);
    assert_eq!(cpu_color(6000), Color::Green);
    assert_eq!(cpu_color(6001), Color::Yellow);
    assert_eq!(cpu_color(0), Color::Green);
}

#[test]
fn memory_color_follows_threshold_table() {
    assert_eq!(memory_color(91, 100), Color::Red);
    assert_eq!(memory_color(90, 100), Color::Yellow);
    assert_eq!(memory_color(76, 100), Color::Yellow);
    assert_eq!(memory_color(75, 100), Color::Blue);
    assert_eq!(memory_color(0, 100), Color::Blue);
    // An exact boundary expressed with large byte counts stays exact.
    assert_eq!(memory_color(9 * (1 << 60), 10 * (1 << 60)), Color::Yellow);
    assert_eq!(memory_color(9 * (1 << 60) + 1, 10 * (1 << 60)), Color::Red);
}

#[test]
fn swap_color_follows_threshold_table() {
    assert_eq!(swap_color(51, 100), Color::Red);
    assert_eq!(swap_color(50, 100), Color::Yellow);
    assert_eq!(swap_color(26, 100), Color::Yellow);
    assert_eq!(swap_color(25, 100), Color::Blue);
    // Zero total swap counts as zero percent.
    assert_eq!(swap_color(12345, 0), Color::Blue);
}

#[test]
fn disk_color_follows_threshold_table() {
    assert_eq!(disk_color(91, 100), Color::Red);
    assert_eq!(disk_color(90, 100), Color::Yellow);
    assert_eq!(disk_color(81, 100), Color::Yellow);
    assert_eq!(disk_color(80, 100), Color::DarkGrey);
    assert_eq!(disk_color(0, 100), Color::DarkGrey);
}

#[test]
fn process_color_follows_threshold_table() {
    assert_eq!(process_color(5100), Color::Red);
    assert_eq!(process_color(5000), Color::Yellow);
    assert_eq!(process_color(2100), Color::Yellow);
    assert_eq!(process_color(2000), Color::White);
    assert_eq!(process_color(0), Color::White);
}

#[test]
fn swap_percentage_is_zero_when_total_is_zero() {
    assert_eq!(percent_tenths(0, 0), 0);
    assert_eq!(percent_tenths(1, 0), 0);
    assert_eq!(percent_tenths(123456789, 0), 0);
    assert_eq!(percent_tenths(u64::MAX, 0), 0);
}

#[test]
fn percent_is_exact_division_in_tenths() {
    assert_eq!(percent_tenths(1, 2), 500);
    assert_eq!(percent_tenths(80, 100), 800);
    assert_eq!(percent_tenths(1, 3), 333);
    assert_eq!(percent_tenths(2, 3), 666);
    assert_eq!(percent_tenths(u64::MAX, u64::MAX), 1000);
}

#[test]
fn unit_conversions_are_exact_divisions() {
    assert_eq!(gib_hundredths(1073741824), 100);
    assert_eq!(gib_hundredths(2147483648), 200);
    assert_eq!(gib_hundredths(1610612736), 150);
    assert_eq!(gib_tenths(1073741824), 10);
    assert_eq!(gib_tenths(107374182400), 1000);
    assert_eq!(mib_hundredths(1048576), 100);
    assert_eq!(mib_hundredths(1572864), 150);
    assert_eq!(mib_tenths(536870912), 5120);
    // Rounded down, never up.
    assert_eq!(gib_hundredths(1073741823), 99);
    assert_eq!(mib_tenths(1048575), 9);
}

#[test]
fn disk_used_is_total_minus_available_and_never_underflows() {
    assert_eq!(disk_used(100, 30), 70);
    assert_eq!(disk_used(100, 100), 0);
    assert_eq!(disk_used(30, 100), 0);
}

#[test]
fn memory_line_formats_gib_with_two_decimals() {
    let mut s = base_snapshot();
    s.memory_used_bytes = 1073741824;
    s.memory_total_bytes = 2147483648;
    let frame = draw_frame(&s);
    assert!(frame.contains(&text("Memory: 1.00GB / 2.00GB (50.0%)")));
}

#[test]
fn disk_block_is_omitted_when_disk_list_is_empty() {
    let s = base_snapshot();
    let frame = draw_frame(&s);
    assert!(!frame_texts(&frame).contains("Disks:"));
    // With every list empty, the frame is the four fixed sections only:
    // prologue (2), title (4), CPU (8), memory and swap (10), uptime (3).
    assert_eq!(frame.len(), 27);
}

#[test]
fn each_optional_block_is_omitted_independently() {
    let mut s = base_snapshot();
    s.networks.push(NetworkStat {
        interface_name: "eth0".to_string(),
        received_bytes: 1048576,
        transmitted_bytes: 2097152,
    });
    let frame = draw_frame(&s);
    let all = frame_texts(&frame);
    assert!(!all.contains("Disks:"));
    assert!(!all.contains("Top Processes"));
    assert!(all.contains("Network Interfaces:\n"));
    assert!(all.contains("  eth0: ↓ 1.00MB ↑ 2.00MB\n"));
}

#[test]
fn process_block_is_omitted_when_process_list_is_empty() {
    let mut s = base_snapshot();
    s.disks.push(DiskStat {
        name: "sda".to_string(),
        total_bytes: 107374182400,
        available_bytes: 21474836480,
        mount_point: "/".to_string(),
    });
    let frame = draw_frame(&s);
    let all = frame_texts(&frame);
    assert!(all.contains("Disks:\n"));
    assert!(!all.contains("Top Processes"));
    assert!(!all.contains("Network Interfaces:"));
}

fn proc(name: &str, pid: u64, cpu_hundredths: u64, memory_bytes: u64) -> ProcessStat {
    ProcessStat {
        name: name.to_string(),
        pid,
        cpu_usage_hundredths: cpu_hundredths,
        memory_bytes,
    }
}

#[test]
fn top_processes_caps_at_the_requested_count_and_keeps_order() {
    let mut s = base_snapshot();
    for k in 0..7u64 {
        s.processes.push(proc(&format!("p{}", k), k, 7000 - 1000 * k, 1048576));
    }
    let top = s.top_processes(5);
    assert_eq!(top.len(), 5);
    for k in 0..5u64 {
        assert_eq!(top[k as usize].name, format!("p{}", k));
        assert_eq!(top[k as usize].pid, k);
    }
    assert_eq!(s.top_processes(0).len(), 0);
    assert_eq!(s.top_processes(100).len(), 7);
}

#[test]
fn frame_renders_at_most_five_processes_in_source_order() {
    let mut s = base_snapshot();
    for k in 0..7u64 {
        s.processes.push(proc(&format!("proc{}", k), k, 100, 1048576));
    }
    let all = frame_texts(&draw_frame(&s));
    assert!(all.contains("proc0"));
    assert!(all.contains("proc4"));
    assert!(!all.contains("proc5"));
    assert!(!all.contains("proc6"));
    let a = all.find("proc0").unwrap();
    let b = all.find("proc1").unwrap();
    let c = all.find("proc4").unwrap();
    assert!(a < b && b < c);
}

#[test]
fn process_line_pads_the_pid_to_six_columns() {
    let mut s = base_snapshot();
    s.processes.push(proc("tiny", 42, 1000, 1048576));
    s.processes.push(proc("wide", 1234567, 2500, 10485760));
    let all = frame_texts(&draw_frame(&s));
    assert!(all.contains("      42 10.0% 1.0MB tiny\n"));
    assert!(all.contains("  1234567 25.0% 10.0MB wide\n"));
}

#[test]
fn uptime_shows_whole_hours_and_leftover_minutes() {
    let mut s = base_snapshot();
    s.uptime_seconds = 5025;
    assert!(frame_texts(&draw_frame(&s)).contains("Uptime: 1 hours, 23 minutes\n"));
    s.uptime_seconds = 0;
    assert!(frame_texts(&draw_frame(&s)).contains("Uptime: 0 hours, 0 minutes\n"));
    s.uptime_seconds = 3599;
    assert!(frame_texts(&draw_frame(&s)).contains("Uptime: 0 hours, 59 minutes\n"));
    s.uptime_seconds = 90125;
    assert!(frame_texts(&draw_frame(&s)).contains("Uptime: 25 hours, 2 minutes\n"));
}

#[test]
fn clear_screen_frame_clears_then_homes() {
    assert_eq!(
        clear_screen_frame(),
        vec![Instruction::ClearAll, Instruction::MoveToOrigin]
    );
}

#[test]
fn extreme_values_render_without_panic() {
    let mut s = SystemSnapshot {
        cpu_usage_hundredths: u64::MAX,
        cpu_count: u64::MAX,
        load_average_hundredths: (u64::MAX, u64::MAX, u64::MAX),
        memory_used_bytes: u64::MAX,
        memory_total_bytes: 0,
        swap_used_bytes: u64::MAX,
        swap_total_bytes: 0,
        disks: Vec::new(),
        networks: Vec::new(),
        processes: Vec::new(),
        uptime_seconds: u64::MAX,
    };
    // A source that violates its own invariants (more used than total,
    // zero totals) still renders.
    s.disks.push(DiskStat {
        name: "bad".to_string(),
        total_bytes: 10,
        available_bytes: 20,
        mount_point: "/x".to_string(),
    });
    let frame = draw_frame(&s);
    assert!(frame_texts(&frame).contains("  bad (/x) 0.0GB / 0.0GB (0.0%)\n"));
}

#[test]
fn full_scenario_renders_the_sections_in_fixed_order() {
    let s = SystemSnapshot {
        cpu_usage_hundredths: 9120,
        cpu_count: 8,
        load_average_hundredths: (100, 50, 30),
        memory_used_bytes: 8589934592,
        memory_total_bytes: 17179869184,
        swap_used_bytes: 0,
        swap_total_bytes: 0,
        disks: vec![DiskStat {
            name: "sda".to_string(),
            total_bytes: 107374182400,
            available_bytes: 21474836480,
            mount_point: "/".to_string(),
        }],
        networks: Vec::new(),
        processes: vec![
            proc("proc_a", 1234, 5550, 536870912),
            proc("proc_b", 42, 1000, 1048576),
        ],
        uptime_seconds: 5025,
    };
    let expected = vec![
        // Prologue: home the cursor, clear forward.
        Instruction::MoveToOrigin,
        Instruction::ClearFromCursorDown,
        // Title.
        Instruction::SetColor(Color::Cyan),
        text("=== Rust Conky System Monitor ===\n"),
        Instruction::ResetColor,
        text("\n"),
        // CPU: 91.2% is above 80, so red.
        Instruction::SetColor(Color::Green),
        Instruction::SetColor(Color::Red),
        text("CPU: 91.2% "),
        Instruction::SetColor(Color::Green),
        text("(8 cores)\n"),
        text("Load Average: 1.00, 0.50, 0.30\n"),
        text("\n"),
        Instruction::ResetColor,
        // Memory at 50% stays blue; swap with zero total shows 0.0%.
        Instruction::SetColor(Color::Blue),
        Instruction::SetColor(Color::Blue),
        text("Memory: 8.00GB / 16.00GB (50.0%)"),
        Instruction::SetColor(Color::Blue),
        Instruction::SetColor(Color::Blue),
        text("\n"),
        text("Swap:   0.00GB / 0.00GB (0.0%)"),
        Instruction::ResetColor,
        text("\n"),
        text("\n"),
        // Disk at exactly 80% does not exceed the 80 threshold: dark grey.
        Instruction::SetColor(Color::Magenta),
        text("Disks:\n"),
        Instruction::ResetColor,
        Instruction::SetColor(Color::DarkGrey),
        text("  sda (/) 80.0GB / 100.0GB (80.0%)\n"),
        Instruction::ResetColor,
        text("\n"),
        // No network block: the interface list is empty.
        // Processes: 55.5% is red, 10.0% is white.
        Instruction::SetColor(Color::Cyan),
        text("Top Processes (by CPU):\n"),
        Instruction::ResetColor,
        Instruction::SetColor(Color::Red),
        text("    1234 55.5% 512.0MB proc_a\n"),
        Instruction::SetColor(Color::White),
        text("      42 10.0% 1.0MB proc_b\n"),
        Instruction::ResetColor,
        text("\n"),
        // Uptime.
        Instruction::SetColor(Color::Green),
        text("Uptime: 1 hours, 23 minutes\n"),
        Instruction::ResetColor,
    ];
    assert_eq!(draw_frame(&s), expected);
}
