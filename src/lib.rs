//! Enumeration and correlation of monitors and display devices: the
//! identifiers that the host's subsystems report are decoded and joined into
//! one model, and the registry is walked for each monitor's EDID.
pub mod display;
pub mod fixed_point;
pub mod identity;
pub mod interface;
pub mod monitor;
pub mod physical_monitor;
pub mod wide;
pub mod win_error;

pub use display::{
    CieXyz, ColorSpace, ColorSpaceEndpoints, ColorSpaceGamma, ColorSpaceIntent, ColorSpaceType,
    DisplayDevice, DisplayDeviceError, InterfaceName, State,
};
pub use identity::{Monitor, MonitorError, RegistryError};
pub use physical_monitor::{PhysicalMonitor, PhysicalMonitorError};
pub use wide::wchars_to_string;
pub use win_error::WinError;
