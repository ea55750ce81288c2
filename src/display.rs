//! Display devices, as the device enumeration reports them, and their color
//! spaces.
use vstd::prelude::*;

use crate::fixed_point::{fxp230_billionths, fxp230_to_billionths};
use crate::identity::{EdidAction, Monitor, driver_key_path};
use crate::wide::{utf16_lossy, utf16_lossy_of, wchars_to_string, wide_text};
use crate::win_error::WinError;

verus! {

/// Every flag bit a device state can hold.
pub const STATE_ALL: u32 = 0x0F28_007F;

/// The state flags of a display device.
#[derive(Debug, Clone, Copy, PartialEq, Eq, Structural)]
pub struct State {
    pub bits: u32,
}

impl State {
    /// The monitor is presented as being "on" by the respective GDI view.
    pub const ACTIVE: u32 = 0x0000_0001;
    pub const RDPUDD: u32 = 0x0100_0000;
    pub const REMOTE: u32 = 0x0400_0000;
    pub const ATTACHED: u32 = 0x0000_0002;
    /// The device is removable; it cannot be the primary display.
    pub const REMOVABLE: u32 = 0x0000_0020;
    pub const ACC_DRIVER: u32 = 0x0000_0040;
    pub const DISCONNECT: u32 = 0x0200_0000;
    /// The device has more display modes than its output devices support.
    pub const MODES_PRUNED: u32 = 0x0800_0000;
    pub const MULTI_DRIVER: u32 = 0x0000_0002;
    pub const TS_COMPATIBLE: u32 = 0x0020_0000;
    /// The primary desktop is on the device. Only one device can have this set.
    pub const PRIMARY_DEVICE: u32 = 0x0000_0004;
    /// The device is VGA compatible.
    pub const VGA_COMPATIBLE: u32 = 0x0000_0010;
    pub const UNSAFE_MODES_ON: u32 = 0x0008_0000;
    /// A pseudo device used to mirror application drawing for remoting or
    /// other purposes.
    pub const MIRRORING_DRIVER: u32 = 0x0000_0008;
    pub const ATTACHED_TO_DESKTOP: u32 = 0x0000_0001;

    /// The state of `bits`, if every bit set in it is a known flag.
    pub fn from_bits(bits: u32) -> (r: Option<State>)
        ensures
            match r {
                Some(s) => bits & !STATE_ALL == 0 && s.bits == bits,
                None => bits & !STATE_ALL != 0,
            },
    {
        if bits & !STATE_ALL == 0 {
            Some(State { bits })
        } else {
            None
        }
    }

    /// Whether every bit of `flags` is set.
    pub fn contains(&self, flags: u32) -> (r: bool)
        ensures
            r == (self.bits & flags == flags),
    {
        self.bits & flags == flags
    }
}

/// What the device enumeration reports of one device.
#[derive(Debug, Clone, Copy)]
pub struct RawDisplayDevice {
    pub device_name: [u16; 32],
    pub device_string: [u16; 128],
    pub state_flags: u32,
    pub device_id: [u16; 128],
    pub device_key: [u16; 128],
}

#[derive(Debug, Clone, PartialEq)]
pub struct DisplayDevice {
    pub name: String,
    pub string: String,
    pub state: State,
    pub id: String,
    pub key: String,
    pub ffi_device: [u16; 32],
    pub ffi_key: [u16; 128],
    pub ffi_id: [u16; 128],
}

#[derive(Debug, Eq, PartialEq, Clone, Copy)]
pub enum DisplayDeviceError {
    /// No device is primary: the session is not interactive.
    NoPrimaryDevice,
    /// No device context could be created.
    CreateCtx,
    /// The color space could not be read.
    GetColorSpace,
    /// The device's registry key could not be opened or enumerated.
    GetReg(WinError),
    /// The device-information set could not be obtained.
    GetInfoSet,
    /// The device-information data could not be obtained.
    GetInfoSetData(WinError),
    /// The device has no interface name.
    GetNonexistentInterfaceName,
}

/// A device interface name, as a zero-terminated wide buffer.
pub struct InterfaceName(pub [u16; 128]);

/// `dev` is the device that `raw` describes.
pub open spec fn describes(raw: RawDisplayDevice, dev: DisplayDevice) -> bool {
    &&& dev.name@ == wide_text(raw.device_name@)
    &&& dev.string@ == wide_text(raw.device_string@)
    &&& dev.state.bits == raw.state_flags
    &&& dev.id@ == wide_text(raw.device_id@)
    &&& dev.key@ == wide_text(raw.device_key@)
    &&& dev.ffi_device == raw.device_name
    &&& dev.ffi_key == raw.device_key
    &&& dev.ffi_id == raw.device_id
}

pub open spec fn state_known(raw: RawDisplayDevice) -> bool {
    raw.state_flags & !STATE_ALL == 0
}

pub open spec fn is_primary_raw(raw: RawDisplayDevice) -> bool {
    raw.state_flags & State::PRIMARY_DEVICE == State::PRIMARY_DEVICE
}

/// What one step of enumerating the sub-keys of a registry key gives.
#[derive(Debug, Clone, PartialEq)]
pub enum RegEnumStep {
    /// The sub-key at this index has this name; go on with the next index.
    Entry(String),
    /// The name did not fit: ask for the same index again with a larger buffer.
    Grow,
    /// There are no more sub-keys.
    Exhausted,
    /// The enumeration failed.
    Failed(DisplayDeviceError),
}

/// The state of an enumeration of the sub-keys of a registry key: the index
/// to ask for next, the names found so far, and how many units the name
/// buffer holds.
pub struct RegValuesWalk {
    pub index: u32,
    pub names: Vec<String>,
    pub capacity: usize,
}

/// Where an enumeration goes after one answer of the host.
pub enum RegWalkNext {
    /// Ask again, from this state.
    Continue(RegValuesWalk),
    /// There are no more sub-keys; these are their names, in order.
    Done(Vec<String>),
    /// The enumeration failed.
    Failed(DisplayDeviceError),
}

/// The longest name of a registry key, in units.
pub const MAX_KEY_LENGTH: usize = 255;

/// The name the host wrote: the first `written` units of `buffer`, as far as
/// it goes.
pub open spec fn written_name(buffer: Seq<u16>, written: u32) -> Seq<char> {
    utf16_lossy_of(
        buffer.subrange(
            0,
            if written as int <= buffer.len() {
                written as int
            } else {
                buffer.len() as int
            },
        ),
    )
}

pub const ERROR_SUCCESS: u32 = 0;

pub const ERROR_MORE_DATA: u32 = 234;

pub const ERROR_NO_MORE_ITEMS: u32 = 259;

impl DisplayDevice {
    /// The device that `raw` describes, if its state flags are all known.
    pub fn from_raw(raw: &RawDisplayDevice) -> (r: Option<DisplayDevice>)
        ensures
            match r {
                Some(dev) => state_known(*raw) && describes(*raw, dev),
                None => !state_known(*raw),
            },
    {
        let state = match State::from_bits(raw.state_flags) {
            Some(state) => state,
            None => { return None; },
        };
        Some(DisplayDevice {
            name: wchars_to_string(raw.device_name.as_slice()),
            string: wchars_to_string(raw.device_string.as_slice()),
            state,
            id: wchars_to_string(raw.device_id.as_slice()),
            key: wchars_to_string(raw.device_key.as_slice()),
            ffi_device: raw.device_name,
            ffi_key: raw.device_key,
            ffi_id: raw.device_id,
        })
    }

    /// The devices that the enumeration reported, one for each record, in order.
    pub fn list(raws: &Vec<RawDisplayDevice>) -> (r: Vec<DisplayDevice>)
        requires
            forall|i: int| 0 <= i < raws@.len() ==> state_known(#[trigger] raws@[i]),
        ensures
            r@.len() == raws@.len(),
            forall|i: int| 0 <= i < raws@.len() ==> describes(#[trigger] raws@[i], r@[i]),
    {
        let mut list: Vec<DisplayDevice> = Vec::new();
        let mut i: usize = 0;
        while i < raws.len()
            invariant
                i <= raws@.len(),
                forall|k: int| 0 <= k < raws@.len() ==> state_known(#[trigger] raws@[k]),
                list@.len() == i,
                forall|k: int| 0 <= k < i ==> describes(#[trigger] raws@[k], list@[k]),
            decreases raws@.len() - i,
        {
            match Self::from_raw(&raws[i]) {
                Some(dev) => list.push(dev),
                None => {
                    assert(state_known(raws@[i as int]));
                },
            }
            i = i + 1;
        }
        list
    }

    /// The first device whose state holds the primary flag; `NoPrimaryDevice`
    /// when none does.
    pub fn primary(raws: &Vec<RawDisplayDevice>) -> (r: Result<DisplayDevice, DisplayDeviceError>)
        requires
            forall|i: int| 0 <= i < raws@.len() ==> state_known(#[trigger] raws@[i]),
        ensures
            match r {
                Ok(dev) => exists|k: int|
                    0 <= k < raws@.len() && is_primary_raw(#[trigger] raws@[k]) && describes(
                        raws@[k],
                        dev,
                    ) && forall|j: int| 0 <= j < k ==> !is_primary_raw(#[trigger] raws@[j]),
                Err(e) => e == DisplayDeviceError::NoPrimaryDevice && forall|j: int|
                    0 <= j < raws@.len() ==> !is_primary_raw(#[trigger] raws@[j]),
            },
    {
        let mut i: usize = 0;
        while i < raws.len()
            invariant
                i <= raws@.len(),
                forall|k: int| 0 <= k < raws@.len() ==> state_known(#[trigger] raws@[k]),
                forall|j: int| 0 <= j < i ==> !is_primary_raw(#[trigger] raws@[j]),
            decreases raws@.len() - i,
        {
            if raws[i].state_flags & State::PRIMARY_DEVICE == State::PRIMARY_DEVICE {
                match Self::from_raw(&raws[i]) {
                    Some(dev) => {
                        assert(is_primary_raw(raws@[i as int]));
                        return Ok(dev);
                    },
                    None => {
                        assert(state_known(raws@[i as int]));
                    },
                }
            }
            i = i + 1;
        }
        Err(DisplayDeviceError::NoPrimaryDevice)
    }

    /// The device's interface name, from what the enumeration reported when
    /// asked for it: `GetNonexistentInterfaceName` when it reported nothing.
    pub fn interface_name(reported: Option<[u16; 128]>) -> (r: Result<InterfaceName, DisplayDeviceError>)
        ensures
            match reported {
                Some(units) => r matches Ok(name) && name.0 == units,
                None => r == Err::<InterfaceName, DisplayDeviceError>(DisplayDeviceError::GetNonexistentInterfaceName),
            },
    {
        match reported {
            Some(units) => Ok(InterfaceName(units)),
            None => Err(DisplayDeviceError::GetNonexistentInterfaceName),
        }
    }

    /// The device's color space, from the record the host reported for its
    /// device context (or the failure to get one).
    pub fn colorspace(fetched: &Result<LogColorSpace, DisplayDeviceError>) -> (r: Result<ColorSpace, DisplayDeviceError>)
        requires
            fetched matches Ok(rec) ==> record_valid(*rec),
        ensures
            match fetched {
                Ok(rec) => r matches Ok(cs) && decodes(*rec, cs),
                Err(e) => r matches Err(e2) && e2 == *e,
            },
    {
        match fetched {
            Ok(rec) => match ColorSpace::from_record(rec) {
                Some(cs) => Ok(cs),
                None => Err(DisplayDeviceError::GetColorSpace),
            },
            Err(e) => Err(*e),
        }
    }

    /// The first request of reading the EDID of `monitor`, the monitor behind
    /// this device. A device whose registry-key path is empty has no key, and
    /// so no EDID: the lookup is over at once, with no request made.
    pub fn edid_lookup(&self, monitor: &Monitor) -> (r: EdidAction)
        ensures
            self.ffi_key[0] == 0 ==> r matches EdidAction::Finish(Ok(None)),
            self.ffi_key[0] != 0 ==> (r matches EdidAction::OpenKey(path) && path@ == driver_key_path(
                monitor.driver_id@,
            )),
    {
        monitor.edid(self.ffi_key.as_slice())
    }

    /// One step of enumerating the sub-keys of the device's registry key:
    /// `status` is the host's answer for the current index, and `buffer` holds
    /// the name it wrote, `written` units long.
    pub fn reg_values_step(status: u32, buffer: &[u16], written: u32) -> (r: RegEnumStep)
        ensures
            status == ERROR_SUCCESS ==> (r matches RegEnumStep::Entry(name) && name@
                == written_name(buffer@, written)),
            status == ERROR_MORE_DATA ==> r == RegEnumStep::Grow,
            status == ERROR_NO_MORE_ITEMS ==> r == RegEnumStep::Exhausted,
            status != ERROR_SUCCESS && status != ERROR_MORE_DATA && status != ERROR_NO_MORE_ITEMS
                ==> r == RegEnumStep::Failed(DisplayDeviceError::GetReg(WinError(status))),
    {
        if status == ERROR_SUCCESS {
            let mut name: Vec<u16> = Vec::new();
            let mut i: usize = 0;
            while i < buffer.len() && i < written as usize
                invariant
                    i <= buffer@.len(),
                    i <= written,
                    name@ == buffer@.subrange(0, i as int),
                decreases buffer@.len() - i,
            {
                name.push(buffer[i]);
                i = i + 1;
            }
            RegEnumStep::Entry(utf16_lossy(name.as_slice()))
        } else if status == ERROR_MORE_DATA {
            RegEnumStep::Grow
        } else if status == ERROR_NO_MORE_ITEMS {
            RegEnumStep::Exhausted
        } else {
            RegEnumStep::Failed(DisplayDeviceError::GetReg(WinError(status)))
        }
    }
}

/// A CIE XYZ value as the host encodes it: three 2.30 fixed-point numbers.
#[derive(Debug, Clone, Copy, PartialEq, Eq)]
pub struct RawCieXyz {
    pub x: i32,
    pub y: i32,
    pub z: i32,
}

/// The encoded endpoints of a calibrated RGB space.
#[derive(Debug, Clone, Copy, PartialEq, Eq)]
pub struct RawEndpoints {
    pub red: RawCieXyz,
    pub green: RawCieXyz,
    pub blue: RawCieXyz,
}

/// A logical color space as the host reports it.
#[derive(Debug, Clone, Copy)]
pub struct LogColorSpace {
    pub cs_type: i32,
    pub intent: i32,
    pub endpoints: RawEndpoints,
    pub gamma_red: u32,
    pub gamma_green: u32,
    pub gamma_blue: u32,
    pub filename: [u16; 260],
}

pub const LCS_CALIBRATED_RGB: i32 = 0;

pub const LCS_SRGB: i32 = 0x7352_4742;

pub const LCS_WINDOWS_COLOR_SPACE: i32 = 0x5769_6E20;

pub const LCS_GM_BUSINESS: i32 = 1;

pub const LCS_GM_GRAPHICS: i32 = 2;

pub const LCS_GM_IMAGES: i32 = 4;

pub const LCS_GM_ABS_COLORIMETRIC: i32 = 8;

/// A CIE XYZ value, each coordinate in billionths.
#[derive(Debug, Clone, Copy, PartialEq, Eq)]
pub struct CieXyz {
    pub x: u64,
    pub y: u64,
    pub z: u64,
}

#[derive(Debug, Clone, Copy, PartialEq, Eq)]
pub struct ColorSpaceEndpoints {
    pub red: CieXyz,
    pub green: CieXyz,
    pub blue: CieXyz,
}

/// The gamma of each channel, in billionths.
#[derive(Debug, Clone, Copy, PartialEq, Eq)]
pub struct ColorSpaceGamma {
    pub red: u32,
    pub green: u32,
    pub blue: u32,
}

#[derive(Debug, Eq, PartialEq, Clone, Copy)]
pub enum ColorSpaceIntent {
    /// Absolute Colorimetric: maintain the white point.
    Match,
    /// Saturation: maintain saturation.
    Graphic,
    /// Relative Colorimetric: maintain colorimetric match.
    Proof,
    /// Perceptual: maintain contrast.
    Picture,
}

#[derive(Debug, PartialEq, Eq, Clone, Copy)]
pub enum ColorSpaceType {
    /// Calibrated RGB values, mapped through these endpoints.
    CalibratedRgb(ColorSpaceEndpoints),
    /// sRGB values.
    Srgb,
    /// Values of the host's default color space.
    Windows,
}

#[derive(Debug, PartialEq, Clone)]
pub struct ColorSpace {
    pub space_type: ColorSpaceType,
    pub intent: ColorSpaceIntent,
    pub gamma: ColorSpaceGamma,
    pub filename: String,
}

/// The intent that `code` stands for.
pub open spec fn intent_of(code: i32) -> Option<ColorSpaceIntent> {
    if code == LCS_GM_ABS_COLORIMETRIC {
        Some(ColorSpaceIntent::Match)
    } else if code == LCS_GM_BUSINESS {
        Some(ColorSpaceIntent::Graphic)
    } else if code == LCS_GM_GRAPHICS {
        Some(ColorSpaceIntent::Proof)
    } else if code == LCS_GM_IMAGES {
        Some(ColorSpaceIntent::Picture)
    } else {
        None
    }
}

pub open spec fn raw_xyz_in_range(raw: RawCieXyz) -> bool {
    raw.x >= 0 && raw.y >= 0 && raw.z >= 0
}

pub open spec fn xyz_of(raw: RawCieXyz) -> CieXyz {
    CieXyz {
        x: fxp230_billionths(raw.x as int) as u64,
        y: fxp230_billionths(raw.y as int) as u64,
        z: fxp230_billionths(raw.z as int) as u64,
    }
}

pub open spec fn endpoints_in_range(raw: RawEndpoints) -> bool {
    raw_xyz_in_range(raw.red) && raw_xyz_in_range(raw.green) && raw_xyz_in_range(raw.blue)
}

pub open spec fn endpoints_of(raw: RawEndpoints) -> ColorSpaceEndpoints {
    ColorSpaceEndpoints { red: xyz_of(raw.red), green: xyz_of(raw.green), blue: xyz_of(raw.blue) }
}

/// The type that `rec` states, if it is a known one with decodable endpoints.
pub open spec fn space_type_of(rec: LogColorSpace) -> Option<ColorSpaceType> {
    if rec.cs_type == LCS_CALIBRATED_RGB && endpoints_in_range(rec.endpoints) {
        Some(ColorSpaceType::CalibratedRgb(endpoints_of(rec.endpoints)))
    } else if rec.cs_type == LCS_SRGB {
        Some(ColorSpaceType::Srgb)
    } else if rec.cs_type == LCS_WINDOWS_COLOR_SPACE {
        Some(ColorSpaceType::Windows)
    } else {
        None
    }
}

/// `rec` states a known type and intent, with decodable endpoints.
pub open spec fn record_valid(rec: LogColorSpace) -> bool {
    space_type_of(rec) is Some && intent_of(rec.intent) is Some
}

/// `cs` is what `rec` decodes to.
pub open spec fn decodes(rec: LogColorSpace, cs: ColorSpace) -> bool {
    &&& space_type_of(rec) == Some(cs.space_type)
    &&& intent_of(rec.intent) == Some(cs.intent)
    &&& cs.gamma == ColorSpaceGamma { red: rec.gamma_red, green: rec.gamma_green, blue: rec.gamma_blue }
    &&& cs.filename@ == wide_text(rec.filename@)
}

impl ColorSpaceIntent {
    /// The intent that a host code stands for, if any.
    pub fn from_code(code: i32) -> (r: Option<ColorSpaceIntent>)
        ensures
            r == intent_of(code),
    {
        if code == LCS_GM_ABS_COLORIMETRIC {
            Some(ColorSpaceIntent::Match)
        } else if code == LCS_GM_BUSINESS {
            Some(ColorSpaceIntent::Graphic)
        } else if code == LCS_GM_GRAPHICS {
            Some(ColorSpaceIntent::Proof)
        } else if code == LCS_GM_IMAGES {
            Some(ColorSpaceIntent::Picture)
        } else {
            None
        }
    }
}

impl CieXyz {
    pub fn from_raw(raw: RawCieXyz) -> (r: CieXyz)
        requires
            raw_xyz_in_range(raw),
        ensures
            r == xyz_of(raw),
    {
        CieXyz {
            x: fxp230_to_billionths(raw.x),
            y: fxp230_to_billionths(raw.y),
            z: fxp230_to_billionths(raw.z),
        }
    }
}

impl ColorSpaceEndpoints {
    pub fn from_raw(raw: RawEndpoints) -> (r: ColorSpaceEndpoints)
        requires
            endpoints_in_range(raw),
        ensures
            r == endpoints_of(raw),
    {
        ColorSpaceEndpoints {
            red: CieXyz::from_raw(raw.red),
            green: CieXyz::from_raw(raw.green),
            blue: CieXyz::from_raw(raw.blue),
        }
    }
}

impl ColorSpace {
    /// The color space that `rec` describes; `None` when it states an unknown
    /// type or intent, or endpoints out of range.
    pub fn from_record(rec: &LogColorSpace) -> (r: Option<ColorSpace>)
        ensures
            match r {
                Some(cs) => record_valid(*rec) && decodes(*rec, cs),
                None => !record_valid(*rec),
            },
    {
        let space_type = if rec.cs_type == LCS_CALIBRATED_RGB {
            if rec.endpoints.red.x < 0 || rec.endpoints.red.y < 0 || rec.endpoints.red.z < 0
                || rec.endpoints.green.x < 0 || rec.endpoints.green.y < 0
                || rec.endpoints.green.z < 0 || rec.endpoints.blue.x < 0
                || rec.endpoints.blue.y < 0 || rec.endpoints.blue.z < 0 {
                return None;
            }
            ColorSpaceType::CalibratedRgb(ColorSpaceEndpoints::from_raw(rec.endpoints))
        } else if rec.cs_type == LCS_SRGB {
            ColorSpaceType::Srgb
        } else if rec.cs_type == LCS_WINDOWS_COLOR_SPACE {
            ColorSpaceType::Windows
        } else {
            return None;
        };
        let intent = match ColorSpaceIntent::from_code(rec.intent) {
            Some(intent) => intent,
            None => { return None; },
        };
        Some(ColorSpace {
            space_type,
            intent,
            gamma: ColorSpaceGamma { red: rec.gamma_red, green: rec.gamma_green, blue: rec.gamma_blue },
            filename: wchars_to_string(rec.filename.as_slice()),
        })
    }
}

impl RegValuesWalk {
    /// An enumeration that starts at the first sub-key, with a buffer for the
    /// longest name.
    pub fn new() -> (r: RegValuesWalk)
        ensures
            r.index == 0,
            r.names@.len() == 0,
            r.capacity == MAX_KEY_LENGTH,
    {
        RegValuesWalk { index: 0, names: Vec::new(), capacity: MAX_KEY_LENGTH }
    }

    /// Takes the host's answer for sub-key `index`: `status`, and the name it
    /// wrote into `buffer`, `written` units long. A name is kept and the next
    /// index asked for; a name too long for the buffer has the same index
    /// asked for again with twice the capacity; the end of the sub-keys ends
    /// the enumeration with the names kept; any other status fails it.
    pub fn step(self, status: u32, buffer: &[u16], written: u32) -> (r: RegWalkNext)
        requires
            status == ERROR_SUCCESS ==> self.index < u32::MAX,
            status == ERROR_MORE_DATA ==> self.capacity <= usize::MAX / 2,
        ensures
            status == ERROR_SUCCESS ==> (r matches RegWalkNext::Continue(w) && w.index
                == self.index + 1 && w.capacity == self.capacity && w.names@.len()
                == self.names@.len() + 1 && w.names@.drop_last() == self.names@
                && w.names@.last()@ == written_name(buffer@, written)),
            status == ERROR_MORE_DATA ==> (r matches RegWalkNext::Continue(w) && w.index
                == self.index && w.capacity == 2 * self.capacity && w.names@ == self.names@),
            status == ERROR_NO_MORE_ITEMS ==> (r matches RegWalkNext::Done(names) && names@
                == self.names@),
            status != ERROR_SUCCESS && status != ERROR_MORE_DATA && status != ERROR_NO_MORE_ITEMS
                ==> (r matches RegWalkNext::Failed(e) && e == DisplayDeviceError::GetReg(
                WinError(status),
            )),
    {
        let RegValuesWalk { index, mut names, capacity } = self;
        match DisplayDevice::reg_values_step(status, buffer, written) {
            RegEnumStep::Entry(name) => {
                let ghost before = names@;
                names.push(name);
                assert(names@.drop_last() =~= before);
                RegWalkNext::Continue(RegValuesWalk { index: index + 1, names, capacity })
            },
            RegEnumStep::Grow => RegWalkNext::Continue(
                RegValuesWalk { index, names, capacity: capacity * 2 },
            ),
            RegEnumStep::Exhausted => RegWalkNext::Done(names),
            RegEnumStep::Failed(e) => RegWalkNext::Failed(e),
        }
    }
}

impl InterfaceName {
    /// The first unit of the buffer, which the host reads the name from.
    pub fn as_ffi(&self) -> (r: &u16)
        ensures
            *r == self.0[0],
    {
        &self.0[0]
    }

    /// The name as text: the units before the first zero unit.
    pub fn to_string(&self) -> (r: String)
        ensures
            r@ == wide_text(self.0@),
    {
        wchars_to_string(self.0.as_slice())
    }
}

} // verus!
