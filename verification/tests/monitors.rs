use tao::dpi::{PhysicalPosition, PhysicalSize};
use tao::event_loop::EventLoopBuilder;
use tao::monitor::{MonitorHandle, VideoMode, VideoModeData};

fn mode(width: u32, height: u32, bit_depth: u16, refresh_rate: u16) -> VideoModeData {
    VideoModeData { size: PhysicalSize { width, height }, bit_depth, refresh_rate }
}

fn monitor(id: u64, name: &str, x: i32, y: i32, width: u32, height: u32) -> MonitorHandle {
    MonitorHandle {
        id,
        name: Some(name.to_string()),
        size: PhysicalSize { width, height },
        position: PhysicalPosition { x, y },
        modes: Vec::new(),
    }
}

fn video_mode(monitor_id: u64, data: VideoModeData) -> VideoMode {
    VideoMode { video_mode: data, monitor: monitor(monitor_id, "m", 0, 0, 1920, 1080) }
}

#[test]
fn larger_resolution_sorts_first_on_same_monitor() {
    let big = video_mode(1, mode(1920, 1080, 32, 60));
    let small = video_mode(1, mode(1280, 720, 32, 60));
    assert!(big < small);
    assert!(!(small < big));
}

#[test]
fn higher_refresh_rate_sorts_first_for_equal_resolution() {
    let fast = video_mode(1, mode(1920, 1080, 32, 120));
    let slow = video_mode(1, mode(1920, 1080, 32, 60));
    assert!(fast < slow);
}

#[test]
fn higher_bit_depth_sorts_first_as_last_tiebreak() {
    let deep = video_mode(1, mode(1920, 1080, 32, 60));
    let shallow = video_mode(1, mode(1920, 1080, 24, 60));
    assert!(deep < shallow);
}

#[test]
fn monitor_identifier_dominates_the_mode_order() {
    let first_monitor_small = video_mode(1, mode(640, 480, 24, 30));
    let second_monitor_big = video_mode(2, mode(3840, 2160, 32, 144));
    assert!(first_monitor_small < second_monitor_big);
}

#[test]
fn equal_modes_compare_equal() {
    let a = video_mode(1, mode(1920, 1080, 32, 60));
    let b = video_mode(1, mode(1920, 1080, 32, 60));
    assert!(a == b);
    assert!(!(a < b));
    assert!(!(b < a));
}

#[test]
fn video_mode_accessors_return_the_stored_data() {
    let m = video_mode(4, mode(2560, 1440, 30, 75));
    assert_eq!(m.size(), PhysicalSize { width: 2560, height: 1440 });
    assert_eq!(m.bit_depth(), 30);
    assert_eq!(m.refresh_rate(), 75);
    assert_eq!(m.monitor().id, 4);
}

#[test]
fn video_mode_display_string_matches_the_format() {
    let m = video_mode(1, mode(1920, 1080, 32, 60));
    assert_eq!(m.to_display_string(), "1920x1080 @ 60 Hz (32 bpp)");
}

#[test]
fn monitor_queries_return_the_snapshot() {
    let mut m = monitor(3, "left display", -1920, 0, 1920, 1200);
    m.modes = vec![mode(1920, 1200, 32, 60), mode(1280, 800, 32, 60)];
    assert_eq!(m.name(), Some("left display".to_string()));
    assert_eq!(m.size(), PhysicalSize { width: 1920, height: 1200 });
    assert_eq!(m.position(), PhysicalPosition { x: -1920, y: 0 });
    let modes = m.video_modes();
    assert_eq!(modes.len(), 2);
    assert_eq!(modes[0].size(), PhysicalSize { width: 1920, height: 1200 });
    assert_eq!(modes[1].size(), PhysicalSize { width: 1280, height: 800 });
    assert_eq!(modes[0].monitor().id, 3);
}

#[test]
fn vanished_monitor_reports_no_name() {
    let mut m = monitor(9, "x", 0, 0, 800, 600);
    m.name = None;
    assert_eq!(m.name(), None);
}

#[test]
fn available_monitors_preserves_reported_order() {
    let mut builder = EventLoopBuilder::<()>::with_user_event();
    builder.platform_specific.monitors = vec![
        monitor(1, "a", 0, 0, 1920, 1080),
        monitor(2, "b", 1920, 0, 2560, 1440),
    ];
    builder.platform_specific.primary = Some(1);
    let event_loop = builder.build();
    let monitors = event_loop.window_target.available_monitors();
    assert_eq!(monitors.len(), 2);
    assert_eq!(monitors[0].id, 1);
    assert_eq!(monitors[1].id, 2);
    let primary = event_loop.window_target.primary_monitor().unwrap();
    assert_eq!(primary.id, 2);
    assert_eq!(primary.name(), Some("b".to_string()));
}

#[test]
fn primary_monitor_absent_when_not_configured() {
    let mut builder = EventLoopBuilder::<()>::with_user_event();
    builder.platform_specific.monitors = vec![monitor(1, "a", 0, 0, 1920, 1080)];
    let event_loop = builder.build();
    assert!(event_loop.window_target.primary_monitor().is_none());
}

#[test]
fn out_of_range_primary_index_is_dropped() {
    let mut builder = EventLoopBuilder::<()>::with_user_event();
    builder.platform_specific.monitors = vec![monitor(1, "a", 0, 0, 1920, 1080)];
    builder.platform_specific.primary = Some(5);
    let event_loop = builder.build();
    assert!(event_loop.window_target.primary_monitor().is_none());
}

#[test]
fn monitor_from_point_finds_the_covering_monitor() {
    let mut builder = EventLoopBuilder::<()>::with_user_event();
    builder.platform_specific.monitors = vec![
        monitor(1, "left", 0, 0, 1920, 1080),
        monitor(2, "right", 1920, 0, 1280, 1024),
    ];
    let event_loop = builder.build();
    let target = &event_loop.window_target;
    assert_eq!(target.monitor_from_point(10, 10).unwrap().id, 1);
    assert_eq!(target.monitor_from_point(2000, 100).unwrap().id, 2);
    // The right edge is exclusive.
    assert_eq!(target.monitor_from_point(1919, 0).unwrap().id, 1);
    assert_eq!(target.monitor_from_point(1920, 0).unwrap().id, 2);
    assert!(target.monitor_from_point(-1, 0).is_none());
    assert!(target.monitor_from_point(5000, 5000).is_none());
}

#[test]
fn monitor_from_point_prefers_the_first_reported_monitor() {
    // Overlapping monitors: the first in reported order wins.
    let mut builder = EventLoopBuilder::<()>::with_user_event();
    builder.platform_specific.monitors = vec![
        monitor(7, "top", 0, 0, 100, 100),
        monitor(8, "under", 0, 0, 200, 200),
    ];
    let event_loop = builder.build();
    assert_eq!(event_loop.window_target.monitor_from_point(50, 50).unwrap().id, 7);
    assert_eq!(event_loop.window_target.monitor_from_point(150, 150).unwrap().id, 8);
}
