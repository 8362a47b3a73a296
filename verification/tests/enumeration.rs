use window_recorder::{
    build_monitor_directory, build_window_info, get_all_windows, get_process_executable_path,
    get_window_monitor_info, DesktopSnapshot, EnumerationError, MonitorDimensions, MonitorEntry,
    MonitorProbe, MonitorRect, WindowProbe,
};

fn utf16(s: &str) -> Vec<u16> {
    s.encode_utf16().collect()
}

fn rect(left: i32, top: i32, right: i32, bottom: i32) -> MonitorRect {
    MonitorRect { left, top, right, bottom }
}

fn probe(hwnd: i64, visible: bool, pid: u32) -> WindowProbe {
    WindowProbe {
        hwnd,
        visible,
        title: utf16("window"),
        class_name: utf16("class"),
        pid,
        image_path: None,
        spans_monitors: false,
        nearest_monitor: 0,
        nearest_rect: None,
    }
}

#[test]
fn monitor_directory_numbers_usable_probes_contiguously() {
    let probes = vec![
        MonitorProbe { handle: 7, rect: Some(rect(0, 0, 1920, 1080)) },
        MonitorProbe { handle: 8, rect: None },
        MonitorProbe { handle: 9, rect: Some(rect(1920, 0, 4480, 1440)) },
    ];
    let dir = build_monitor_directory(&probes);
    assert_eq!(dir.len(), 2);
    assert_eq!(
        dir[0],
        MonitorEntry { handle: 7, dims: MonitorDimensions { width: 1920, height: 1080, index: 0 } }
    );
    assert_eq!(
        dir[1],
        MonitorEntry { handle: 9, dims: MonitorDimensions { width: 2560, height: 1440, index: 1 } }
    );
}

#[test]
fn monitor_directory_of_no_probes_is_empty() {
    let dir = build_monitor_directory(&Vec::new());
    assert_eq!(dir.len(), 0);
}

#[test]
fn degenerate_monitor_rect_is_skipped() {
    let probes = vec![
        MonitorProbe { handle: 3, rect: Some(rect(100, 100, 100, 400)) },
        MonitorProbe { handle: 4, rect: Some(rect(0, 0, 800, 600)) },
    ];
    let dir = build_monitor_directory(&probes);
    assert_eq!(dir.len(), 1);
    assert_eq!(
        dir[0],
        MonitorEntry { handle: 4, dims: MonitorDimensions { width: 800, height: 600, index: 0 } }
    );
}

#[test]
fn invisible_windows_never_appear() {
    let snapshot = DesktopSnapshot {
        foreground: 0,
        monitors: Vec::new(),
        windows: Some(vec![probe(10, false, 42), probe(11, true, 42), probe(12, false, 42)]),
    };
    let result = get_all_windows(&snapshot).unwrap();
    assert_eq!(result.len(), 1);
    assert_eq!(result[0].hwnd, 11);
}

#[test]
fn zero_pid_windows_never_appear() {
    let snapshot = DesktopSnapshot {
        foreground: 0,
        monitors: Vec::new(),
        windows: Some(vec![probe(10, true, 0), probe(11, true, 7), probe(12, true, 0)]),
    };
    let result = get_all_windows(&snapshot).unwrap();
    assert_eq!(result.len(), 1);
    assert_eq!(result[0].hwnd, 11);
    assert_eq!(result[0].pid, 7);
}

#[test]
fn enumeration_start_failure_is_surfaced() {
    let snapshot = DesktopSnapshot {
        foreground: 0,
        monitors: vec![MonitorProbe { handle: 7, rect: Some(rect(0, 0, 1920, 1080)) }],
        windows: None,
    };
    let result = get_all_windows(&snapshot);
    assert_eq!(result.unwrap_err(), EnumerationError::EnumerationStartFailure);
}

#[test]
fn no_windows_is_a_valid_empty_result() {
    let snapshot =
        DesktopSnapshot { foreground: 0, monitors: Vec::new(), windows: Some(Vec::new()) };
    assert_eq!(get_all_windows(&snapshot).unwrap().len(), 0);
}

#[test]
fn directory_match_resolves_monitor_and_keeps_span_flag() {
    let dir = vec![
        MonitorEntry { handle: 7, dims: MonitorDimensions { width: 1920, height: 1080, index: 0 } },
        MonitorEntry { handle: 9, dims: MonitorDimensions { width: 2560, height: 1440, index: 1 } },
    ];
    let (dims, spans) = get_window_monitor_info(true, 9, &dir, &None);
    assert_eq!(dims, MonitorDimensions { width: 2560, height: 1440, index: 1 });
    assert!(spans);
    let (dims, spans) = get_window_monitor_info(false, 7, &dir, &Some(rect(0, 0, 5, 5)));
    assert_eq!(dims, MonitorDimensions { width: 1920, height: 1080, index: 0 });
    assert!(!spans);
}

#[test]
fn directory_miss_falls_back_to_direct_query() {
    let dir = vec![MonitorEntry {
        handle: 7,
        dims: MonitorDimensions { width: 1920, height: 1080, index: 0 },
    }];
    let (dims, spans) = get_window_monitor_info(true, 99, &dir, &Some(rect(-800, 0, 480, 1024)));
    assert_eq!(dims, MonitorDimensions { width: 1280, height: 1024, index: 0 });
    assert!(spans);
}

#[test]
fn ultimate_fallback_overrides_span_flag() {
    let dir = vec![MonitorEntry {
        handle: 7,
        dims: MonitorDimensions { width: 1920, height: 1080, index: 0 },
    }];
    let (dims, spans) = get_window_monitor_info(true, 99, &dir, &None);
    assert_eq!(dims, MonitorDimensions { width: 1920, height: 1080, index: 0 });
    assert!(!spans);
    let (dims, spans) = get_window_monitor_info(true, 99, &dir, &Some(rect(5, 5, 5, 900)));
    assert_eq!(dims, MonitorDimensions { width: 1920, height: 1080, index: 0 });
    assert!(!spans);
}

#[test]
fn zero_monitors_window_gets_default_monitor() {
    let mut w = probe(10, true, 42);
    w.spans_monitors = true;
    let snapshot = DesktopSnapshot { foreground: 0, monitors: Vec::new(), windows: Some(vec![w]) };
    let result = get_all_windows(&snapshot).unwrap();
    assert_eq!(result.len(), 1);
    assert_eq!(result[0].monitor_dimensions, MonitorDimensions { width: 1920, height: 1080, index: 0 });
    assert!(!result[0].intersects_multiple);
}

#[test]
fn long_title_is_truncated_to_buffer_capacity() {
    let mut w = probe(10, true, 42);
    w.title = vec![0x61u16; 600];
    w.class_name = vec![0x62u16; 300];
    let snapshot = DesktopSnapshot { foreground: 0, monitors: Vec::new(), windows: Some(vec![w]) };
    let result = get_all_windows(&snapshot).unwrap();
    assert_eq!(result[0].title, "a".repeat(512));
    assert_eq!(result[0].class_name, "b".repeat(256));
}

#[test]
fn title_at_capacity_is_kept_whole() {
    let mut w = probe(10, true, 42);
    w.title = vec![0x61u16; 512];
    let snapshot = DesktopSnapshot { foreground: 0, monitors: Vec::new(), windows: Some(vec![w]) };
    let result = get_all_windows(&snapshot).unwrap();
    assert_eq!(result[0].title, "a".repeat(512));
}

#[test]
fn non_ascii_title_decodes_exactly() {
    let mut w = probe(10, true, 42);
    w.title = utf16("héllo — 🚀");
    let snapshot = DesktopSnapshot { foreground: 0, monitors: Vec::new(), windows: Some(vec![w]) };
    let result = get_all_windows(&snapshot).unwrap();
    assert_eq!(result[0].title, "héllo — 🚀");
}

#[test]
fn empty_title_stays_empty() {
    let mut w = probe(10, true, 42);
    w.title = Vec::new();
    let snapshot = DesktopSnapshot { foreground: 0, monitors: Vec::new(), windows: Some(vec![w]) };
    let result = get_all_windows(&snapshot).unwrap();
    assert_eq!(result[0].title, "");
}

#[test]
fn exited_process_yields_empty_paths_but_window_is_kept() {
    let mut w = probe(10, true, 42);
    w.image_path = None;
    let snapshot = DesktopSnapshot { foreground: 0, monitors: Vec::new(), windows: Some(vec![w]) };
    let result = get_all_windows(&snapshot).unwrap();
    assert_eq!(result.len(), 1);
    assert_eq!(result[0].executable, "");
    assert_eq!(result[0].full_exe, "");
    assert!(result[0].arguments.is_empty());
}

#[test]
fn resolved_path_fills_executable_and_arguments() {
    let mut w = probe(10, true, 42);
    w.image_path = Some(utf16("C:\\Program Files\\tool\\app.exe"));
    let snapshot = DesktopSnapshot { foreground: 0, monitors: Vec::new(), windows: Some(vec![w]) };
    let result = get_all_windows(&snapshot).unwrap();
    assert_eq!(result[0].executable, "app.exe");
    assert_eq!(result[0].full_exe, "C:\\Program Files\\tool\\app.exe");
    assert_eq!(result[0].arguments, vec!["C:\\Program Files\\tool\\app.exe".to_string()]);
    assert_eq!(result[0].product_name, None);
}

#[test]
fn executable_path_edge_cases() {
    let (base, full) = get_process_executable_path(&None);
    assert_eq!((base.as_str(), full.as_str()), ("", ""));
    let (base, full) = get_process_executable_path(&Some(Vec::new()));
    assert_eq!((base.as_str(), full.as_str()), ("", ""));
    let (base, full) = get_process_executable_path(&Some(utf16("app.exe")));
    assert_eq!((base.as_str(), full.as_str()), ("app.exe", "app.exe"));
    let (base, full) = get_process_executable_path(&Some(utf16("C:\\dir\\")));
    assert_eq!((base.as_str(), full.as_str()), ("", "C:\\dir\\"));
    let (base, full) = get_process_executable_path(&Some(utf16("/usr/bin/tool")));
    assert_eq!((base.as_str(), full.as_str()), ("tool", "/usr/bin/tool"));
}

#[test]
fn overlong_image_path_is_truncated_to_buffer_capacity() {
    let (base, full) = get_process_executable_path(&Some(vec![0x61u16; 1100]));
    assert_eq!(full, "a".repeat(1024));
    assert_eq!(base, "a".repeat(1024));
}

#[test]
fn foreground_handle_focuses_exactly_one_window() {
    let snapshot = DesktopSnapshot {
        foreground: 11,
        monitors: Vec::new(),
        windows: Some(vec![probe(10, true, 1), probe(11, true, 2), probe(12, true, 3)]),
    };
    let result = get_all_windows(&snapshot).unwrap();
    let focused: Vec<i64> = result.iter().filter(|w| w.focused).map(|w| w.hwnd).collect();
    assert_eq!(focused, vec![11]);
}

#[test]
fn build_window_info_skips_and_emits_as_the_filter_says() {
    let dir = Vec::new();
    assert!(build_window_info(&probe(10, false, 42), &dir, 0).is_none());
    assert!(build_window_info(&probe(10, true, 0), &dir, 0).is_none());
    let w = build_window_info(&probe(10, true, 42), &dir, 10).unwrap();
    assert!(w.focused);
    assert_eq!(w.pid, 42);
    assert_eq!(w.hwnd, 10);
}

#[test]
fn two_passes_over_same_probes_agree_except_focus() {
    let windows = vec![probe(10, true, 1), probe(11, true, 2)];
    let monitors = vec![MonitorProbe { handle: 7, rect: Some(rect(0, 0, 1920, 1080)) }];
    let first = get_all_windows(&DesktopSnapshot {
        foreground: 10,
        monitors: monitors.clone(),
        windows: Some(windows.clone()),
    })
    .unwrap();
    let second = get_all_windows(&DesktopSnapshot {
        foreground: 11,
        monitors,
        windows: Some(windows),
    })
    .unwrap();
    assert_eq!(first.len(), second.len());
    for (a, b) in first.iter().zip(second.iter()) {
        assert_eq!(a.class_name, b.class_name);
        assert_eq!(a.executable, b.executable);
        assert_eq!(a.title, b.title);
        assert_eq!(a.pid, b.pid);
        assert_eq!(a.hwnd, b.hwnd);
        assert_eq!(a.full_exe, b.full_exe);
        assert_eq!(a.monitor_dimensions, b.monitor_dimensions);
        assert_eq!(a.intersects_multiple, b.intersects_multiple);
        assert_eq!(a.arguments, b.arguments);
    }
    assert!(first[0].focused && !first[1].focused);
    assert!(!second[0].focused && second[1].focused);
}
