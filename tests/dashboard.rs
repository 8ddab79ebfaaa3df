use sysdash::band::{color_band, BarColor, ColorBand};
use sysdash::bar::{fill_len, render_bar};
use sysdash::battery::{render_battery_info, BatteryReading};
use sysdash::category::{InfoCategory, TabState};
use sysdash::cpu::render_cpu_info;
use sysdash::dashboard::{Dashboard, Key, LoopAction};
use sysdash::disk::{render_disk_info, DiskKind, DiskReading};
use sysdash::layout::{layout_for, panel_title, LayoutPlan, SplitDirection};
use sysdash::memory::{gb_centi, render_memory_info, MemoryReading};
use sysdash::network::{render_network_info, sort_interfaces, NetworkReading};
use sysdash::order::text_less;
use sysdash::panel::{render_panel, MetricSnapshot, Panel};
use sysdash::process::{render_process_info, ProcessReading};
use sysdash::temperature::{render_temperature_info, TemperatureReading};

fn net(name: &str, rx: u64, tx: u64) -> NetworkReading {
    NetworkReading { name: name.to_string(), received: rx, transmitted: tx }
}

fn proc_entry(pid: u32, name: &str) -> ProcessReading {
    ProcessReading {
        pid,
        name: name.to_string(),
        status: "Run".to_string(),
        cpu_centi: 150,
        memory_bytes: 1073741824,
    }
}

fn battery(percent: u64, secs: Option<u64>) -> BatteryReading {
    BatteryReading {
        vendor: Some("ACME".to_string()),
        model: None,
        state: "Charging".to_string(),
        percent,
        time_to_full_secs: secs,
    }
}

#[test]
fn color_band_thresholds() {
    assert_eq!(color_band(0), ColorBand::Low);
    assert_eq!(color_band(3999), ColorBand::Low);
    assert_eq!(color_band(4000), ColorBand::Medium);
    assert_eq!(color_band(5999), ColorBand::Medium);
    assert_eq!(color_band(6000), ColorBand::High);
    assert_eq!(color_band(7999), ColorBand::High);
    assert_eq!(color_band(8000), ColorBand::Critical);
    assert_eq!(color_band(10000), ColorBand::Critical);
    assert_eq!(color_band(-500), ColorBand::Low);
}

#[test]
fn band_colors() {
    assert_eq!(ColorBand::Low.color(), BarColor::White);
    assert_eq!(ColorBand::Medium.color(), BarColor::LightYellow);
    assert_eq!(ColorBand::High.color(), BarColor::LightRed);
    assert_eq!(ColorBand::Critical.color(), BarColor::Red);
}

#[test]
fn bar_fill_and_pad_make_full_width() {
    for centi in [0i64, 1, 99, 100, 4250, 9999, 10000] {
        let bar = render_bar(centi);
        let filled = bar.text.chars().filter(|c| *c == '\u{2588}').count();
        let empty = bar.text.chars().filter(|c| *c == '\u{2591}').count();
        assert_eq!(filled, (centi / 100) as usize);
        assert_eq!(empty, 100 - (centi / 100) as usize);
        assert_eq!(filled + empty, 100);
        assert!(bar.text.starts_with('['));
        assert!(bar.text.ends_with(']'));
    }
}

#[test]
fn bar_caps_out_of_range_values() {
    assert_eq!(fill_len(12050), 100);
    assert_eq!(fill_len(-300), 0);
    let hot = render_bar(12050);
    assert_eq!(hot.text.chars().filter(|c| *c == '\u{2591}').count(), 0);
    assert_eq!(hot.color, BarColor::Red);
}

#[test]
fn tab_next_seven_times_returns() {
    for start in 0..7 {
        let mut t = TabState::new();
        for _ in 0..start {
            t.next();
        }
        assert_eq!(t.index(), start);
        for _ in 0..7 {
            t.next();
        }
        assert_eq!(t.index(), start);
        t.next();
        t.previous();
        assert_eq!(t.index(), start);
    }
}

#[test]
fn tab_wraps_both_ways() {
    let mut t = TabState::new();
    t.previous();
    assert_eq!(t.index(), 6);
    assert_eq!(t.current(), InfoCategory::Battery);
    t.next();
    assert_eq!(t.index(), 0);
    assert_eq!(t.current(), InfoCategory::CPU);
}

#[test]
fn category_titles_and_positions() {
    assert_eq!(InfoCategory::Temperature.title(), "Temp");
    assert_eq!(InfoCategory::at(3), InfoCategory::Process);
    assert_eq!(InfoCategory::Disk.index(), 4);
}

#[test]
fn navigation_scenario() {
    let mut d = Dashboard::new();
    assert_eq!(d.active(), InfoCategory::CPU);
    for _ in 0..3 {
        assert_eq!(d.handle_input(Some(Key::NextTab)), LoopAction::Continue);
    }
    assert_eq!(d.active(), InfoCategory::Process);
    assert_eq!(d.selected_index(), 3);
    assert_eq!(d.handle_input(Some(Key::PreviousTab)), LoopAction::Continue);
    assert_eq!(d.active(), InfoCategory::Network);
    assert_eq!(d.handle_input(None), LoopAction::Continue);
    assert_eq!(d.handle_input(Some(Key::Other)), LoopAction::Continue);
    assert_eq!(d.active(), InfoCategory::Network);
    assert_eq!(d.handle_input(Some(Key::Quit)), LoopAction::Exit);
    assert!(!d.is_running());
    assert_eq!(d.handle_input(Some(Key::Quit)), LoopAction::Continue);
    assert_eq!(d.handle_input(Some(Key::NextTab)), LoopAction::Continue);
    assert_eq!(d.active(), InfoCategory::Network);
}

#[test]
fn memory_gauge_half() {
    let p = render_memory_info(MemoryReading {
        total_bytes: 16_000_000_000,
        used_bytes: 8_000_000_000,
        free_bytes: 8_000_000_000,
    });
    let ratio = p.gauge.numerator as f64 / p.gauge.denominator as f64;
    assert_eq!(ratio, 0.5);
    assert_eq!(
        p.text,
        "Total Memory: 14.90 GB\nUsed Memory: 7.45 GB\nFree Memory: 7.45 GB"
    );
}

#[test]
fn memory_gauge_edge_cases() {
    let empty = render_memory_info(MemoryReading { total_bytes: 0, used_bytes: 5, free_bytes: 0 });
    assert_eq!(empty.gauge.numerator, 0);
    assert_eq!(empty.gauge.denominator, 1);
    let over = render_memory_info(MemoryReading { total_bytes: 10, used_bytes: 20, free_bytes: 0 });
    assert_eq!(over.gauge.numerator, 10);
    assert_eq!(over.gauge.denominator, 10);
}

#[test]
fn gigabyte_conversion() {
    assert_eq!(gb_centi(1073741824), 100);
    assert_eq!(gb_centi(0), 0);
    assert_eq!(gb_centi(536870912), 50);
    assert_eq!(gb_centi(u64::MAX), 1717986918400);
}

#[test]
fn cpu_lines_and_bars() {
    let p = render_cpu_info(&vec![4250, 0, 8000]);
    assert_eq!(p.text, "CPU 0: 42.50%\nCPU 1: 0.00%\nCPU 2: 80.00%\n");
    assert_eq!(p.bars.len(), 3);
    assert_eq!(p.bars[0].color, BarColor::LightYellow);
    assert_eq!(p.bars[1].color, BarColor::White);
    assert_eq!(p.bars[2].color, BarColor::Red);
}

#[test]
fn network_sorted_by_name() {
    let text = render_network_info(vec![net("wlan0", 5, 6), net("eth0", 1, 2), net("lo", 3, 4)]);
    assert_eq!(
        text,
        "Interface: eth0\n  Received: 1 bytes\n  Transmitted: 2 bytes\n\
         Interface: lo\n  Received: 3 bytes\n  Transmitted: 4 bytes\n\
         Interface: wlan0\n  Received: 5 bytes\n  Transmitted: 6 bytes\n"
    );
}

#[test]
fn network_order_ignores_input_order() {
    let names = ["veth9", "eth1", "eth0", "docker0", "lo", "eth10"];
    let sorted = sort_interfaces(names.iter().map(|n| net(n, 0, 0)).collect());
    let got: Vec<&str> = sorted.iter().map(|n| n.name.as_str()).collect();
    assert_eq!(got, vec!["docker0", "eth0", "eth1", "eth10", "lo", "veth9"]);
    for w in got.windows(2) {
        assert!(w[0] < w[1]);
    }
}

#[test]
fn lexical_comparison() {
    assert!(text_less("eth0", "eth1"));
    assert!(text_less("eth", "eth0"));
    assert!(!text_less("eth0", "eth0"));
    assert!(!text_less("lo", "eth0"));
    assert!(text_less("", "a"));
}

#[test]
fn processes_sorted_by_pid() {
    let text = render_process_info(vec![proc_entry(300, "c"), proc_entry(2, "a"), proc_entry(41, "b")]);
    let pids: Vec<u32> = text
        .lines()
        .filter(|l| l.starts_with("PID: "))
        .map(|l| l[5..].parse().unwrap())
        .collect();
    assert_eq!(pids, vec![2, 41, 300]);
    assert!(text.starts_with(
        "PID: 2\n  Name: a\n  Status: Run\n  CPU Usage: 1.50%\n  Memory Usage: 1.00 GB\n"
    ));
}

#[test]
fn disk_entry_text() {
    let text = render_disk_info(&vec![
        DiskReading {
            name: "sda1".to_string(),
            file_system: "ext4".to_string(),
            kind: DiskKind::SSD,
            removable: false,
            available_bytes: 1073741824 * 3 / 2,
            total_bytes: 1073741824 * 10,
            mount_point: "/".to_string(),
        },
        DiskReading {
            name: "sdb".to_string(),
            file_system: "vfat".to_string(),
            kind: DiskKind::Unknown(-1),
            removable: true,
            available_bytes: 0,
            total_bytes: 0,
            mount_point: "/media".to_string(),
        },
    ]);
    assert_eq!(
        text,
        "Disk(sda1)\n  [FS: ext4]\n  [Type: SSD]\n  [Removable: no]\n  [Mounted on /: 1.50/10.00 GB]\n\
         Disk(sdb)\n  [FS: vfat]\n  [Type: Unknown(-1)]\n  [Removable: yes]\n  [Mounted on /media: 0.00/0.00 GB]\n"
    );
}

#[test]
fn temperature_lines_and_bars() {
    let p = render_temperature_info(&vec![
        TemperatureReading { label: "cpu".to_string(), centi: 4500 },
        TemperatureReading { label: "gpu".to_string(), centi: -250 },
    ]);
    assert_eq!(
        p.text,
        format!("cpu{}: 45.00 \u{b0}C\ngpu{}: -2.50 \u{b0}C\n", " ".repeat(17), " ".repeat(17))
    );
    assert_eq!(p.bars[0].color, BarColor::LightYellow);
    assert_eq!(p.bars[1].text.chars().filter(|c| *c == '\u{2588}').count(), 0);
}

#[test]
fn battery_zero_batteries_labeled() {
    assert_eq!(render_battery_info(Some(vec![])), "No batteries found");
}

#[test]
fn battery_provider_failure_placeholder() {
    assert_eq!(render_battery_info(None), "No battery information available");
}

#[test]
fn battery_entries() {
    let text = render_battery_info(Some(vec![battery(87, Some(90)), battery(100, None)]));
    assert_eq!(
        text,
        "Battery #0\n  Vendor: ACME\n  Model: Unknown Model\n  State: Charging\n  Battery Percentage: 87%\n  Time to full charge: 1m 30s\n\
         Battery #1\n  Vendor: ACME\n  Model: Unknown Model\n  State: Charging\n  Battery Percentage: 100%\n  Time to full charge: Unknown\n"
    );
}

#[test]
fn battery_duration_hours() {
    let text = render_battery_info(Some(vec![battery(50, Some(3600))]));
    assert!(text.ends_with("Time to full charge: 1h\n"));
}

#[test]
fn layouts_per_category() {
    assert_eq!(
        layout_for(InfoCategory::CPU),
        LayoutPlan::Split { direction: SplitDirection::Horizontal, first_percent: 30, second_percent: 70 }
    );
    assert_eq!(
        layout_for(InfoCategory::Memory),
        LayoutPlan::Split { direction: SplitDirection::Vertical, first_percent: 40, second_percent: 6 }
    );
    assert_eq!(
        layout_for(InfoCategory::Temperature),
        LayoutPlan::Split { direction: SplitDirection::Horizontal, first_percent: 40, second_percent: 6 }
    );
    for c in [InfoCategory::Network, InfoCategory::Process, InfoCategory::Disk, InfoCategory::Battery] {
        assert_eq!(layout_for(c), LayoutPlan::ClearedFull);
    }
    assert_eq!(panel_title(InfoCategory::Disk), "Disk Info");
}

#[test]
fn panel_dispatch() {
    let snap = MetricSnapshot {
        cpu_loads: vec![1000],
        memory: MemoryReading { total_bytes: 4, used_bytes: 1, free_bytes: 3 },
        networks: vec![],
        processes: vec![],
        disks: vec![],
        temperatures: vec![],
    };
    match render_panel(InfoCategory::Battery, snap, Some(vec![])) {
        Panel::Text { text } => assert_eq!(text, "No batteries found"),
        _ => panic!("battery tab is a text panel"),
    }
    let snap = MetricSnapshot {
        cpu_loads: vec![1000],
        memory: MemoryReading { total_bytes: 4, used_bytes: 1, free_bytes: 3 },
        networks: vec![],
        processes: vec![],
        disks: vec![],
        temperatures: vec![],
    };
    match render_panel(InfoCategory::Memory, snap, None) {
        Panel::Gauge { gauge, .. } => {
            assert_eq!(gauge.numerator, 1);
            assert_eq!(gauge.denominator, 4);
        }
        _ => panic!("memory tab is a gauge panel"),
    }
}

#[test]
fn network_duplicate_names_kept() {
    let sorted = sort_interfaces(vec![net("eth0", 1, 1), net("a", 0, 0), net("eth0", 2, 2)]);
    let got: Vec<&str> = sorted.iter().map(|n| n.name.as_str()).collect();
    assert_eq!(got, vec!["a", "eth0", "eth0"]);
    let mut rx: Vec<u64> = sorted.iter().map(|n| n.received).collect();
    rx.sort();
    assert_eq!(rx, vec![0, 1, 2]);
}
