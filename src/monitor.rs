//! Virtual monitors: display surfaces with a place in virtual-screen
//! coordinates.
use vstd::prelude::*;

use crate::physical_monitor::{PhysicalMonitor, PhysicalMonitorError, RawPhysicalMonitor, physical_of};
use crate::wide::{wchars_to_string, wide_text};
use crate::win_error::WinError;

verus! {

/// An opaque handle of the host, good for one enumeration only.
#[derive(Debug, Clone, Copy, PartialEq, Eq, Structural)]
pub struct MonitorHandle(pub usize);

/// A rectangle in virtual-screen coordinates; off the primary monitor some
/// coordinates may be negative.
#[derive(Debug, Clone, Copy, PartialEq, Eq, Structural)]
pub struct Rect {
    pub left: i32,
    pub top: i32,
    pub right: i32,
    pub bottom: i32,
}

/// What the host reports of one virtual monitor.
#[derive(Debug, Clone, Copy)]
pub struct RawMonitorInfo {
    pub handle: MonitorHandle,
    pub device: [u16; 32],
    pub monitor: Rect,
    pub work: Rect,
    pub flags: u32,
}

#[derive(Debug, Clone, PartialEq, Eq)]
pub struct Monitor {
    /// The host's handle.
    pub h: MonitorHandle,
    pub name: String,
    /// The display monitor rectangle.
    pub rect: Rect,
    /// The work area rectangle of the display monitor.
    pub work_area: Rect,
    /// Whether this is the primary display monitor.
    pub is_primary: bool,
}

#[derive(Debug, Eq, PartialEq, Clone, Copy)]
pub enum MonitorError {
    /// The host reported its placeholder monitor: the session is not interactive.
    GotPlaceholder,
    /// No monitor is primary.
    NoPrimary,
}

/// The flag of the primary monitor in a monitor's report.
pub const MONITORINFOF_PRIMARY: u32 = 1;

/// The device name the host gives its placeholder monitor.
pub const PLACEHOLDER_NAME: &'static str = "WinDisc";

pub open spec fn is_placeholder(raw: RawMonitorInfo) -> bool {
    wide_text(raw.device@) == PLACEHOLDER_NAME@
}

pub open spec fn raw_is_primary(raw: RawMonitorInfo) -> bool {
    raw.flags & MONITORINFOF_PRIMARY != 0
}

/// `mon` is the monitor that `raw` describes.
pub open spec fn monitor_of(raw: RawMonitorInfo, mon: Monitor) -> bool {
    &&& mon.h == raw.handle
    &&& mon.name@ == wide_text(raw.device@)
    &&& mon.rect == raw.monitor
    &&& mon.work_area == raw.work
    &&& mon.is_primary == raw_is_primary(raw)
}

/// The reports of `raws` that are not of the placeholder, in order.
pub open spec fn listed(raws: Seq<RawMonitorInfo>) -> Seq<RawMonitorInfo>
    decreases raws.len(),
{
    if raws.len() == 0 {
        Seq::empty()
    } else if is_placeholder(raws.last()) {
        listed(raws.drop_last())
    } else {
        listed(raws.drop_last()).push(raws.last())
    }
}

/// Each listed report is one of the reports, and they keep their order.
pub proof fn lemma_listed_from(raws: Seq<RawMonitorInfo>)
    ensures
        listed(raws).len() <= raws.len(),
        forall|i: int|
            0 <= i < listed(raws).len() ==> exists|k: int|
                0 <= k < raws.len() && #[trigger] listed(raws)[i] == raws[k] && !is_placeholder(raws[k]),
    decreases raws.len(),
{
    if raws.len() > 0 {
        let prev = raws.drop_last();
        lemma_listed_from(prev);
        assert forall|i: int| 0 <= i < listed(raws).len() implies exists|k: int|
            0 <= k < raws.len() && #[trigger] listed(raws)[i] == raws[k] && !is_placeholder(raws[k]) by {
            if i < listed(prev).len() {
                let k = choose|k: int|
                    0 <= k < prev.len() && #[trigger] listed(prev)[i] == prev[k] && !is_placeholder(prev[k]);
                assert(raws[k] == prev[k]);
            } else {
                assert(listed(raws)[i] == raws[raws.len() - 1]);
            }
        }
    }
}

/// At most one listed monitor is primary when at most one report is.
pub proof fn lemma_at_most_one_primary(raws: Seq<RawMonitorInfo>)
    requires
        forall|a: int, b: int|
            0 <= a < raws.len() && 0 <= b < raws.len() && raw_is_primary(#[trigger] raws[a])
                && raw_is_primary(#[trigger] raws[b]) ==> a == b,
    ensures
        forall|a: int, b: int|
            0 <= a < listed(raws).len() && 0 <= b < listed(raws).len() && raw_is_primary(
                #[trigger] listed(raws)[a],
            ) && raw_is_primary(#[trigger] listed(raws)[b]) ==> a == b,
    decreases raws.len(),
{
    if raws.len() > 0 {
        let prev = raws.drop_last();
        assert forall|a: int, b: int|
            0 <= a < prev.len() && 0 <= b < prev.len() && raw_is_primary(#[trigger] prev[a])
                && raw_is_primary(#[trigger] prev[b]) implies a == b by {
            assert(prev[a] == raws[a] && prev[b] == raws[b]);
        }
        lemma_at_most_one_primary(prev);
        lemma_listed_from(prev);
        if !is_placeholder(raws.last()) && raw_is_primary(raws.last()) {
            assert forall|a: int| 0 <= a < listed(prev).len() implies !raw_is_primary(
                #[trigger] listed(prev)[a],
            ) by {
                let k = choose|k: int|
                    0 <= k < prev.len() && #[trigger] listed(prev)[a] == prev[k] && !is_placeholder(prev[k]);
                assert(prev[k] == raws[k]);
                if raw_is_primary(raws[k]) {
                    assert(raw_is_primary(raws[raws.len() - 1]));
                }
            }
        }
    }
}

impl Monitor {
    /// The monitor that `raw` describes; `GotPlaceholder` when it is the
    /// host's placeholder.
    pub fn get(raw: &RawMonitorInfo) -> (r: Result<Monitor, MonitorError>)
        ensures
            match r {
                Ok(mon) => !is_placeholder(*raw) && monitor_of(*raw, mon),
                Err(e) => is_placeholder(*raw) && e == MonitorError::GotPlaceholder,
            },
    {
        let name = wchars_to_string(raw.device.as_slice());
        let placeholder = String::from_str(PLACEHOLDER_NAME);
        if name == placeholder {
            return Err(MonitorError::GotPlaceholder);
        }
        Ok(Monitor {
            h: raw.handle,
            name,
            rect: raw.monitor,
            work_area: raw.work,
            is_primary: raw.flags & MONITORINFOF_PRIMARY != 0,
        })
    }

    /// All monitors the host reported, in order, but for its placeholder,
    /// which is left out.
    pub fn list(raws: &Vec<RawMonitorInfo>) -> (r: Vec<Monitor>)
        ensures
            r@.len() == listed(raws@).len(),
            forall|i: int| 0 <= i < r@.len() ==> monitor_of(#[trigger] listed(raws@)[i], r@[i]),
    {
        let mut list: Vec<Monitor> = Vec::new();
        let mut i: usize = 0;
        while i < raws.len()
            invariant
                i <= raws@.len(),
                list@.len() == listed(raws@.subrange(0, i as int)).len(),
                forall|k: int|
                    0 <= k < list@.len() ==> monitor_of(
                        #[trigger] listed(raws@.subrange(0, i as int))[k],
                        list@[k],
                    ),
            decreases raws@.len() - i,
        {
            let ghost prev = raws@.subrange(0, i as int);
            assert(raws@.subrange(0, i + 1).drop_last() =~= prev);
            assert(raws@.subrange(0, i + 1).last() == raws@[i as int]);
            match Self::get(&raws[i]) {
                Ok(mon) => {
                    list.push(mon);
                },
                Err(_) => {},
            }
            i = i + 1;
        }
        assert(raws@.subrange(0, i as int) =~= raws@);
        list
    }

    /// The first listed monitor that is primary; `NoPrimary` when none is.
    pub fn primary(raws: &Vec<RawMonitorInfo>) -> (r: Result<Monitor, MonitorError>)
        ensures
            match r {
                Ok(mon) => exists|k: int|
                    0 <= k < listed(raws@).len() && monitor_of(#[trigger] listed(raws@)[k], mon)
                        && mon.is_primary && forall|j: int|
                        0 <= j < k ==> !raw_is_primary(#[trigger] listed(raws@)[j]),
                Err(e) => e == MonitorError::NoPrimary && forall|j: int|
                    0 <= j < listed(raws@).len() ==> !raw_is_primary(#[trigger] listed(raws@)[j]),
            },
    {
        let list = Self::list(raws);
        let mut i: usize = 0;
        while i < list.len()
            invariant
                i <= list@.len(),
                list@.len() == listed(raws@).len(),
                forall|k: int| 0 <= k < list@.len() ==> monitor_of(#[trigger] listed(raws@)[k], list@[k]),
                forall|j: int| 0 <= j < i ==> !raw_is_primary(#[trigger] listed(raws@)[j]),
            decreases list@.len() - i,
        {
            if list[i].is_primary {
                assert(monitor_of(listed(raws@)[i as int], list@[i as int]));
                let mon = Monitor {
                    h: list[i].h,
                    name: list[i].name.clone(),
                    rect: list[i].rect,
                    work_area: list[i].work_area,
                    is_primary: list[i].is_primary,
                };
                assert(monitor_of(listed(raws@)[i as int], mon));
                return Ok(mon);
            }
            assert(monitor_of(listed(raws@)[i as int], list@[i as int]));
            i = i + 1;
        }
        Err(MonitorError::NoPrimary)
    }

    /// The physical monitors behind this one, from what the host reported for
    /// its handle.
    pub fn physical_monitors(&self, reported: &Result<Vec<RawPhysicalMonitor>, WinError>) -> (r:
        Result<Vec<PhysicalMonitor>, PhysicalMonitorError>)
        ensures
            match reported {
                Err(code) => r == Err::<Vec<PhysicalMonitor>, PhysicalMonitorError>(
                    PhysicalMonitorError::Listing(*code),
                ),
                Ok(raws) => r matches Ok(list) && list@.len() == raws@.len() && forall|i: int|
                    0 <= i < raws@.len() ==> physical_of(#[trigger] raws@[i], list@[i]),
            },
    {
        PhysicalMonitor::list(reported)
    }
}

} // verus!
