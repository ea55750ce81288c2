use monitor_control_win::display::{
    LogColorSpace, RawCieXyz, RawDisplayDevice, RawEndpoints, RegEnumStep, RegValuesWalk,
    RegWalkNext, ERROR_MORE_DATA,
    ERROR_NO_MORE_ITEMS, ERROR_SUCCESS, LCS_CALIBRATED_RGB, LCS_GM_ABS_COLORIMETRIC,
    LCS_GM_BUSINESS, LCS_GM_GRAPHICS, LCS_GM_IMAGES, LCS_SRGB, LCS_WINDOWS_COLOR_SPACE,
};
use monitor_control_win::fixed_point::fxp230_to_billionths;
use monitor_control_win::identity::{EdidAction, LIST_PATH};
use monitor_control_win::{
    wchars_to_string, CieXyz, ColorSpace, ColorSpaceIntent, ColorSpaceType, DisplayDevice,
    DisplayDeviceError, Monitor, State, WinError,
};

fn wide<const N: usize>(s: &str) -> [u16; N] {
    let mut out = [0u16; N];
    for (slot, unit) in out.iter_mut().zip(s.encode_utf16()) {
        *slot = unit;
    }
    out
}

fn raw_device(name: &str, flags: u32, key: &str) -> RawDisplayDevice {
    RawDisplayDevice {
        device_name: wide(name),
        device_string: wide("Generic PnP Monitor"),
        state_flags: flags,
        device_id: wide(r"MONITOR\MEI96A2\{4d36e96e-e325-11ce-bfc1-08002be10318}\0001"),
        device_key: wide(key),
    }
}

fn devices() -> Vec<RawDisplayDevice> {
    vec![
        raw_device(r"\\.\DISPLAY1", State::ATTACHED_TO_DESKTOP, r"\Registry\Machine\X\0001"),
        raw_device(
            r"\\.\DISPLAY2",
            State::ATTACHED_TO_DESKTOP | State::PRIMARY_DEVICE,
            r"\Registry\Machine\X\0002",
        ),
        raw_device(r"\\.\DISPLAY3", State::PRIMARY_DEVICE, ""),
    ]
}

/// Takes the first action of a lookup; any request to the registry fails
/// the test.
fn no_registry(action: EdidAction) -> Option<Vec<u8>> {
    match action {
        EdidAction::Finish(result) => result.unwrap(),
        EdidAction::OpenKey(path) => panic!("registry opened at {}", path),
        EdidAction::OpenSubKey(name) => panic!("registry sub-key {} opened", name),
        EdidAction::ReadValue(name) => panic!("registry value {} read", name),
    }
}

fn record(cs_type: i32, intent: i32) -> LogColorSpace {
    let xyz = |x, y, z| RawCieXyz { x, y, z };
    LogColorSpace {
        cs_type,
        intent,
        endpoints: RawEndpoints {
            red: xyz(0x4000_0000, 740329, 0),
            green: xyz(1, 2, 5),
            blue: xyz(20, 1073741823, 0x7fff_ffff),
        },
        gamma_red: 2_000_000_000,
        gamma_green: 1_000_000_000,
        gamma_blue: 2_200_000_000,
        filename: wide("sRGB Color Space Profile.icm"),
    }
}

#[test]
fn fxp_math() {
    let cases = [
        (0, 0),
        (1, 0),
        (2, 1),
        (5, 4),
        (20, 18),
        (740329, 689485),
        (1073741823, 999_999_999),
    ];
    for (input, output) in cases.iter() {
        println!("input = {}", input);
        assert_eq!(fxp230_to_billionths(*input), *output);
    }
}

#[test]
fn fxp_math_as_float() {
    let cases = [
        (0, 0f32),
        (1, 0f32),
        (2, 0.000_000_001),
        (5, 0.000_000_004),
        (20, 0.000_000_018),
        (740329, 0.000_689_485),
        (1073741823, 0.999_999_999),
    ];
    for (input, output) in cases.iter() {
        let got = fxp230_to_billionths(*input) as f32 / 1_000_000_000f32;
        let tolerance = f32::EPSILON * got.abs().max(output.abs()).max(1.0);
        assert!((got - output).abs() <= tolerance, "input = {}", input);
    }
}

#[test]
fn fxp_is_monotonic_on_samples() {
    let mut last = 0;
    for input in (0..=0x7fff_ffffi32).step_by(9_999_991).chain([0x7fff_ffff]) {
        let now = fxp230_to_billionths(input);
        assert!(now >= last);
        last = now;
    }
    assert_eq!(fxp230_to_billionths(0x4000_0000), 1_000_000_000);
    assert_eq!(fxp230_to_billionths(0x7fff_ffff), 1_999_999_999);
}

#[test]
fn display_can_list() {
    let list = DisplayDevice::list(&devices());
    println!("{:#?}", list);
    assert_eq!(list.len(), 3);
    assert_eq!(list[0].name, r"\\.\DISPLAY1");
    assert_eq!(list[1].string, "Generic PnP Monitor");
    assert_eq!(list[1].key, r"\Registry\Machine\X\0002");
    assert_eq!(list[2].key, "");
    assert!(list[1].state.contains(State::PRIMARY_DEVICE));
}

#[test]
fn primary_is_first_with_flag() {
    let primary = DisplayDevice::primary(&devices()).unwrap();
    assert_eq!(primary.name, r"\\.\DISPLAY2");
    let none = vec![raw_device(r"\\.\DISPLAY1", State::ACTIVE, "k")];
    assert_eq!(DisplayDevice::primary(&none), Err(DisplayDeviceError::NoPrimaryDevice));
    assert_eq!(DisplayDevice::primary(&vec![]), Err(DisplayDeviceError::NoPrimaryDevice));
}

#[test]
fn state_rejects_unknown_bits() {
    assert!(State::from_bits(0).is_some());
    assert!(State::from_bits(0x0F28_007F).is_some());
    assert!(State::from_bits(0x0000_0080).is_none());
    assert!(State::from_bits(0x8000_0000).is_none());
    let state = State::from_bits(State::ACTIVE | State::PRIMARY_DEVICE).unwrap();
    assert!(state.contains(State::PRIMARY_DEVICE));
    assert!(!state.contains(State::REMOVABLE));
    assert!(DisplayDevice::from_raw(&raw_device("x", 0x100, "k")).is_none());
}

#[test]
fn can_get_interface_name() {
    let primary = DisplayDevice::primary(&devices()).unwrap();
    assert_eq!(primary.name, r"\\.\DISPLAY2");
    let reported = wide(r"\\?\DISPLAY#MEI96A2#4&289d1234&0&UID0#{e6f07b5f-ee97-4a90-b076-33f57bf4eaa7}");
    let name = DisplayDevice::interface_name(Some(reported)).unwrap();
    assert_eq!(*name.as_ffi(), u16::from(b'\\'));
    let monitor = Monitor::from_interface_name(&name.to_string()).unwrap();
    assert_eq!(monitor.driver_id, "MEI96A2");
    assert_eq!(monitor.id, "4&289d1234&0&UID0");
    assert!(matches!(
        DisplayDevice::interface_name(None),
        Err(DisplayDeviceError::GetNonexistentInterfaceName)
    ));
}

#[test]
fn zero_sentinel_skips_registry() {
    let list = DisplayDevice::list(&devices());
    let monitor = Monitor {
        driver_id: "MEI96A2".to_string(),
        id: "4&289d1234&0&UID0".to_string(),
    };
    assert_eq!(no_registry(list[2].edid_lookup(&monitor)), None);
    match list[1].edid_lookup(&monitor) {
        EdidAction::OpenKey(path) => assert_eq!(path, format!(r"{}\MEI96A2", LIST_PATH)),
        _ => panic!("a device with a key opens its driver's key first"),
    }
}

#[test]
fn can_list_reg_values() {
    let mut buffer = vec![0u16; 255];
    for (slot, unit) in buffer.iter_mut().zip("0001xyz".encode_utf16()) {
        *slot = unit;
    }
    let mut names = vec![];
    for (status, written) in [(ERROR_SUCCESS, 4), (ERROR_MORE_DATA, 0), (ERROR_SUCCESS, 7)] {
        match DisplayDevice::reg_values_step(status, &buffer, written) {
            RegEnumStep::Entry(name) => names.push(name),
            RegEnumStep::Grow => buffer.resize(510, 0),
            other => panic!("{:?}", other),
        }
    }
    assert_eq!(names, vec!["0001".to_string(), "0001xyz".to_string()]);
    assert_eq!(
        DisplayDevice::reg_values_step(ERROR_NO_MORE_ITEMS, &buffer, 0),
        RegEnumStep::Exhausted
    );
    assert_eq!(
        DisplayDevice::reg_values_step(5, &buffer, 0),
        RegEnumStep::Failed(DisplayDeviceError::GetReg(WinError(5)))
    );
}

#[test]
fn decodes_calibrated_color_space() {
    let cs = ColorSpace::from_record(&record(LCS_CALIBRATED_RGB, LCS_GM_IMAGES)).unwrap();
    match cs.space_type {
        ColorSpaceType::CalibratedRgb(e) => {
            assert_eq!(e.red, CieXyz { x: 1_000_000_000, y: 689485, z: 0 });
            assert_eq!(e.green, CieXyz { x: 0, y: 1, z: 4 });
            assert_eq!(e.blue, CieXyz { x: 18, y: 999_999_999, z: 1_999_999_999 });
        }
        other => panic!("{:?}", other),
    }
    assert_eq!(cs.intent, ColorSpaceIntent::Picture);
    assert_eq!(cs.gamma.red, 2_000_000_000);
    assert_eq!(cs.gamma.blue, 2_200_000_000);
    assert_eq!(cs.filename, "sRGB Color Space Profile.icm");
}

#[test]
fn decodes_color_space_kinds_and_intents() {
    let srgb = ColorSpace::from_record(&record(LCS_SRGB, LCS_GM_ABS_COLORIMETRIC)).unwrap();
    assert_eq!(srgb.space_type, ColorSpaceType::Srgb);
    assert_eq!(srgb.intent, ColorSpaceIntent::Match);
    let win = ColorSpace::from_record(&record(LCS_WINDOWS_COLOR_SPACE, LCS_GM_BUSINESS)).unwrap();
    assert_eq!(win.space_type, ColorSpaceType::Windows);
    assert_eq!(win.intent, ColorSpaceIntent::Graphic);
    assert_eq!(ColorSpaceIntent::from_code(LCS_GM_GRAPHICS), Some(ColorSpaceIntent::Proof));
    assert_eq!(ColorSpaceIntent::from_code(3), None);
    assert!(ColorSpace::from_record(&record(7, LCS_GM_IMAGES)).is_none());
    assert!(ColorSpace::from_record(&record(LCS_SRGB, 0)).is_none());
    let mut negative = record(LCS_CALIBRATED_RGB, LCS_GM_IMAGES);
    negative.endpoints.green.y = -1;
    assert!(ColorSpace::from_record(&negative).is_none());
}

#[test]
fn colorspace_passes_fetch_failure_on() {
    assert_eq!(
        DisplayDevice::colorspace(&Err(DisplayDeviceError::CreateCtx)),
        Err(DisplayDeviceError::CreateCtx)
    );
    let cs = DisplayDevice::colorspace(&Ok(record(LCS_SRGB, LCS_GM_IMAGES))).unwrap();
    assert_eq!(cs.gamma.green, 1_000_000_000);
}

#[test]
fn wide_string_stops_at_terminator() {
    let units: Vec<u16> = "ab\0cd".encode_utf16().collect();
    assert_eq!(wchars_to_string(&units), "ab");
    assert_eq!(wchars_to_string(&[0u16; 8]), "");
    assert_eq!(wchars_to_string(&[]), "");
}

#[test]
fn wide_string_without_terminator_is_whole() {
    let units: Vec<u16> = "DISPLAY1".encode_utf16().collect();
    let text = wchars_to_string(&units);
    assert_eq!(text, "DISPLAY1");
    assert_eq!(text.chars().count(), units.len());
}

#[test]
fn wide_string_replaces_lone_surrogate() {
    let units = [0x0041u16, 0xD800, 0x0042];
    assert_eq!(wchars_to_string(&units), "A\u{FFFD}B");
    let pair = [0xD83Du16, 0xDE00, 0];
    assert_eq!(wchars_to_string(&pair), "\u{1F600}");
}

#[test]
fn win_error_keeps_code() {
    assert_eq!(WinError(0x57).code(), 0x57);
    assert_eq!(WinError::from(5u32), WinError(5));
}

#[test]
fn win_error_text_is_upper_hex() {
    assert_eq!(WinError(0x57).to_string(), r#"WinError("0x57")"#);
    assert_eq!(WinError(0).to_string(), r#"WinError("0x0")"#);
    assert_eq!(WinError(0xDEAD_BEEF).to_string(), r#"WinError("0xDEADBEEF")"#);
    assert_eq!(WinError(259).to_string(), r#"WinError("0x103")"#);
}

#[test]
fn reg_values_walk_gathers_names() {
    let answers: Vec<(u32, &str)> = vec![
        (ERROR_SUCCESS, "0000"),
        (ERROR_MORE_DATA, ""),
        (ERROR_SUCCESS, "Properties"),
        (ERROR_NO_MORE_ITEMS, ""),
    ];
    let mut walk = RegValuesWalk::new();
    assert_eq!(walk.capacity, 255);
    let mut indices = vec![];
    for (status, name) in answers {
        indices.push(walk.index);
        let mut buffer = vec![0u16; walk.capacity];
        for (slot, unit) in buffer.iter_mut().zip(name.encode_utf16()) {
            *slot = unit;
        }
        let written = name.encode_utf16().count() as u32;
        match walk.step(status, &buffer, written) {
            RegWalkNext::Continue(next) => walk = next,
            RegWalkNext::Done(names) => {
                assert_eq!(names, vec!["0000".to_string(), "Properties".to_string()]);
                assert_eq!(indices, vec![0, 1, 1, 2]);
                return;
            }
            RegWalkNext::Failed(e) => panic!("{:?}", e),
        }
        if status == ERROR_MORE_DATA {
            assert_eq!(walk.capacity, 510);
        }
    }
    panic!("the walk did not end");
}

#[test]
fn reg_values_walk_fails_on_error_status() {
    let walk = RegValuesWalk::new();
    match walk.step(5, &[0u16; 4], 0) {
        RegWalkNext::Failed(e) => assert_eq!(e, DisplayDeviceError::GetReg(WinError(5))),
        _ => panic!("an access error fails the walk"),
    }
}

#[test]
fn wide_string_keeps_utf16_length() {
    let pair = [0xD83Du16, 0xDE00, 0x0041];
    let text = wchars_to_string(&pair);
    assert_eq!(text, "\u{1F600}A");
    assert_eq!(text.encode_utf16().count(), pair.len());
    let lone = [0xDC00u16, 0x0041, 0xD800];
    let text = wchars_to_string(&lone);
    assert_eq!(text, "\u{FFFD}A\u{FFFD}");
    assert_eq!(text.encode_utf16().count(), lone.len());
    assert!(!text.contains('\0'));
}
