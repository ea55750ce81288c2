//! The physical monitors behind a virtual monitor.
use vstd::prelude::*;

use crate::monitor::MonitorHandle;
use crate::wide::{wchars_to_string, wide_text};
use crate::win_error::WinError;

verus! {

/// What the host reports of one physical monitor, copied out of its packed
/// record field by field.
#[derive(Debug, Clone, Copy)]
pub struct RawPhysicalMonitor {
    pub handle: usize,
    pub description: [u16; 128],
}

#[derive(Debug, PartialEq, Eq, Clone)]
pub struct PhysicalMonitor {
    /// The host's handle.
    pub h: MonitorHandle,
    pub description: String,
}

#[derive(Debug, PartialEq, Eq, Clone, Copy)]
pub enum PhysicalMonitorError {
    /// The physical monitors could not be listed; the host's code.
    Listing(WinError),
}

/// `mon` is the physical monitor that `raw` describes.
pub open spec fn physical_of(raw: RawPhysicalMonitor, mon: PhysicalMonitor) -> bool {
    mon.h == MonitorHandle(raw.handle) && mon.description@ == wide_text(raw.description@)
}

impl PhysicalMonitor {
    pub fn from_ffi(raw: &RawPhysicalMonitor) -> (r: PhysicalMonitor)
        ensures
            physical_of(*raw, r),
    {
        PhysicalMonitor {
            h: MonitorHandle(raw.handle),
            description: wchars_to_string(raw.description.as_slice()),
        }
    }

    /// The physical monitors that the host reported, in order, or its failure.
    pub fn list(reported: &Result<Vec<RawPhysicalMonitor>, WinError>) -> (r: Result<
        Vec<PhysicalMonitor>,
        PhysicalMonitorError,
    >)
        ensures
            match reported {
                Err(code) => r == Err::<Vec<PhysicalMonitor>, PhysicalMonitorError>(
                    PhysicalMonitorError::Listing(*code),
                ),
                Ok(raws) => r matches Ok(list) && list@.len() == raws@.len() && forall|i: int|
                    0 <= i < raws@.len() ==> physical_of(#[trigger] raws@[i], list@[i]),
            },
    {
        let raws = match reported {
            Err(code) => { return Err(PhysicalMonitorError::Listing(*code)); },
            Ok(raws) => raws,
        };
        let mut list: Vec<PhysicalMonitor> = Vec::new();
        let mut i: usize = 0;
        while i < raws.len()
            invariant
                *reported == Ok::<Vec<RawPhysicalMonitor>, WinError>(*raws),
                i <= raws@.len(),
                list@.len() == i,
                forall|k: int| 0 <= k < i ==> physical_of(#[trigger] raws@[k], list@[k]),
            decreases raws@.len() - i,
        {
            list.push(Self::from_ffi(&raws[i]));
            i = i + 1;
        }
        assert(reported is Ok);
        Ok(list)
    }
}

} // verus!
