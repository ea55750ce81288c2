use monitor_control_win::monitor::{
    Monitor, MonitorError, MonitorHandle, RawMonitorInfo, Rect, MONITORINFOF_PRIMARY,
};
use monitor_control_win::physical_monitor::{PhysicalMonitor, RawPhysicalMonitor};
use monitor_control_win::{PhysicalMonitorError, WinError};

fn wide<const N: usize>(s: &str) -> [u16; N] {
    let mut out = [0u16; N];
    for (slot, unit) in out.iter_mut().zip(s.encode_utf16()) {
        *slot = unit;
    }
    out
}

fn rect(left: i32, top: i32, right: i32, bottom: i32) -> Rect {
    Rect { left, top, right, bottom }
}

fn info(handle: usize, name: &str, flags: u32) -> RawMonitorInfo {
    RawMonitorInfo {
        handle: MonitorHandle(handle),
        device: wide(name),
        monitor: rect(-1920, 0, 0, 1080),
        work: rect(-1920, 0, 0, 1040),
        flags,
    }
}

#[test]
fn monitor_can_list() {
    let raws = vec![
        info(10, r"\\.\DISPLAY1", 0),
        info(11, r"\\.\DISPLAY2", MONITORINFOF_PRIMARY),
    ];
    let list = Monitor::list(&raws);
    assert!(!list.is_empty());
    assert_eq!(list.len(), 2);
    assert_eq!(list[0].h, MonitorHandle(10));
    assert_eq!(list[0].name, r"\\.\DISPLAY1");
    assert_eq!(list[0].rect, rect(-1920, 0, 0, 1080));
    assert_eq!(list[0].work_area, rect(-1920, 0, 0, 1040));
    assert!(!list[0].is_primary);
    assert!(list[1].is_primary);
}

#[test]
fn placeholder_is_left_out() {
    assert_eq!(Monitor::get(&info(1, "WinDisc", MONITORINFOF_PRIMARY)), Err(MonitorError::GotPlaceholder));
    let raws = vec![
        info(1, "WinDisc", MONITORINFOF_PRIMARY),
        info(2, r"\\.\DISPLAY1", 0),
        info(3, "WinDiscX", 0),
    ];
    let list = Monitor::list(&raws);
    assert_eq!(list.len(), 2);
    assert_eq!(list[0].h, MonitorHandle(2));
    assert_eq!(list[1].name, "WinDiscX");
    assert_eq!(Monitor::primary(&raws), Err(MonitorError::NoPrimary));
}

#[test]
fn primary_needs_a_primary_monitor() {
    assert_eq!(Monitor::primary(&vec![]), Err(MonitorError::NoPrimary));
    let raws = vec![
        info(1, r"\\.\DISPLAY1", 0),
        info(2, r"\\.\DISPLAY2", MONITORINFOF_PRIMARY),
    ];
    let primary = Monitor::primary(&raws).unwrap();
    assert_eq!(primary.h, MonitorHandle(2));
    let primaries = Monitor::list(&raws).iter().filter(|m| m.is_primary).count();
    assert_eq!(primaries, 1);
}

#[test]
fn lists_physical_monitors() {
    let virt = Monitor::list(&vec![info(4, r"\\.\DISPLAY1", MONITORINFOF_PRIMARY)]).remove(0);
    let reported = Ok(vec![
        RawPhysicalMonitor { handle: 0, description: wide("Generic PnP Monitor") },
        RawPhysicalMonitor { handle: 1, description: [0x41; 128] },
    ]);
    let list = virt.physical_monitors(&reported).unwrap();
    assert_eq!(list.len(), 2);
    assert_eq!(list[0].description, "Generic PnP Monitor");
    assert_eq!(list[1].h, MonitorHandle(1));
    assert_eq!(list[1].description.len(), 128);
    assert_eq!(
        PhysicalMonitor::list(&Err(WinError(6))),
        Err(PhysicalMonitorError::Listing(WinError(6)))
    );
}
