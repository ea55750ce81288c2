//! Monitors as the registry knows them: a driver id and a monitor id, found
//! from an interface name or by walking the display-enumeration tree.
use vstd::prelude::*;

use crate::interface::{
    interface_prefix, is_driver_char, is_interface_name, is_monitor_char, lemma_run_end,
    lemma_scan_interface_name, names_monitor, run_end, scan_interface_name, segment_char,
};
use crate::win_error::WinError;

verus! {

/// A monitor's identity in the registry: the key of its driver under the
/// display-enumeration path, and its own key under that.
#[derive(Debug, Clone, Eq, PartialEq)]
pub struct Monitor {
    pub driver_id: String,
    pub id: String,
}

/// A failed registry operation.
#[derive(Debug, Clone, Copy, Eq, PartialEq)]
pub enum RegistryError {
    /// A key could not be opened; the host's code.
    Key(WinError),
    /// A value could not be read; the host's code.
    Value(WinError),
    /// The name of a sub-key could not be read.
    KeyIter,
    /// A value was present but did not hold binary data; the host's type tag.
    NotBinary(u32),
}

#[derive(Debug, Clone, Eq, PartialEq)]
pub enum MonitorError {
    /// The display-enumeration key, or the list of its driver keys, could not be read.
    ListDisplayDrivers(RegistryError),
    /// The key of one driver could not be opened.
    ListMonitorsForDriver { driver_id: String, source: RegistryError },
    /// The EDID value of a monitor could not be read.
    GetEdid { monitor: Monitor, source: RegistryError },
    /// The monitors that a window is on could not be listed.
    ListIntersecting { window: usize, source: WinError },
    /// A name that does not follow the interface-name grammar.
    InvalidInterface(String),
    /// The parameters key of a monitor could not be opened.
    GetParams { monitor: Monitor, source: RegistryError },
}

impl View for Monitor {
    type V = (Seq<char>, Seq<char>);

    open spec fn view(&self) -> (Seq<char>, Seq<char>) {
        (self.driver_id@, self.id@)
    }
}

/// The monitor keys listed under one driver key: each sub-key name, or the
/// failure to read it.
pub struct DriverKeys {
    pub driver_id: String,
    /// The sub-keys of the driver key, or the failure to open it.
    pub monitor_keys: Result<Vec<Result<String, RegistryError>>, RegistryError>,
}

/// The identities of `monitors`, in order.
pub open spec fn monitor_views(monitors: Seq<Monitor>) -> Seq<(Seq<char>, Seq<char>)> {
    monitors.map_values(|mon: Monitor| mon@)
}

/// The monitors under driver `driver_id` whose keys could be read, in order.
pub open spec fn driver_monitors(driver_id: Seq<char>, keys: Seq<Result<String, RegistryError>>) -> Seq<
    (Seq<char>, Seq<char>),
>
    decreases keys.len(),
{
    if keys.len() == 0 {
        Seq::empty()
    } else {
        let rest = driver_monitors(driver_id, keys.drop_last());
        match keys.last() {
            Ok(key) => rest.push((driver_id, key@)),
            Err(_) => rest,
        }
    }
}

/// Whether the driver entry `entry` is a failure to read the list of driver
/// keys, which fails the whole walk.
pub open spec fn entry_fails(entry: Result<DriverKeys, RegistryError>) -> bool {
    entry is Err
}

/// Whether `entry` is a driver key that could not be opened: a failure of one
/// item, which the walk skips.
pub open spec fn driver_key_failed(entry: Result<DriverKeys, RegistryError>) -> bool {
    match entry {
        Ok(dk) => dk.monitor_keys is Err,
        Err(_) => false,
    }
}

/// There are driver keys, and none of them could be opened.
pub open spec fn every_driver_failed(entries: Seq<Result<DriverKeys, RegistryError>>) -> bool {
    entries.len() > 0 && forall|k: int| 0 <= k < entries.len() ==> driver_key_failed(#[trigger] entries[k])
}

/// `err` is the failure to open the first driver key of `entries`.
pub open spec fn first_driver_error(entries: Seq<Result<DriverKeys, RegistryError>>, err: MonitorError) -> bool {
    entries.len() > 0 && match entries[0] {
        Ok(dk) => match dk.monitor_keys {
            Err(e) => match err {
                MonitorError::ListMonitorsForDriver { driver_id, source } => driver_id@
                    == dk.driver_id@ && source == e,
                _ => false,
            },
            Ok(_) => false,
        },
        Err(_) => false,
    }
}

/// The monitors found under the driver keys of `entries` that could be opened.
pub open spec fn walked_monitors(entries: Seq<Result<DriverKeys, RegistryError>>) -> Seq<
    (Seq<char>, Seq<char>),
>
    decreases entries.len(),
{
    if entries.len() == 0 {
        Seq::empty()
    } else {
        let rest = walked_monitors(entries.drop_last());
        match entries.last() {
            Ok(dk) => match dk.monitor_keys {
                Ok(keys) => rest + driver_monitors(dk.driver_id@, keys@),
                Err(_) => rest,
            },
            Err(_) => rest,
        }
    }
}

/// `err` is the error with which a failing entry ends the walk.
pub open spec fn entry_error(entry: Result<DriverKeys, RegistryError>, err: MonitorError) -> bool {
    match entry {
        Err(e) => err == MonitorError::ListDisplayDrivers(e),
        Ok(_) => false,
    }
}

/// The display-enumeration path, under the local-machine hive.
pub const LIST_PATH: &'static str = "SYSTEM\\CurrentControlSet\\Enum\\DISPLAY";

/// The sub-key of a monitor's key that holds its parameters.
pub const PARAMS_KEY: &'static str = "Device Parameters";

/// The value of the parameters key that holds a monitor's EDID.
pub const EDID_VALUE: &'static str = "EDID";

/// The path of the key of driver `driver_id`, under the local-machine hive.
pub open spec fn driver_key_path(driver_id: Seq<char>) -> Seq<char> {
    LIST_PATH@ + seq!['\\'] + driver_id
}

/// The steps of reading a monitor's EDID, in order.
#[derive(Debug, Clone, Copy, PartialEq, Eq, Structural)]
pub enum EdidStage {
    /// Opening the driver's key.
    DriverKey,
    /// Opening the monitor's key under it.
    MonitorKey,
    /// Opening the monitor's parameters key.
    ParamsKey,
    /// Reading the EDID value.
    EdidValue,
}

/// What the registry answered to the last request.
pub enum RegistryReply {
    /// The key was opened.
    Opened,
    /// The value held these bytes.
    Binary(Vec<u8>),
    /// The request failed.
    Failed(RegistryError),
}

/// What to do next while reading a monitor's EDID.
pub enum EdidAction {
    /// Open the key at this path under the local-machine hive.
    OpenKey(String),
    /// Open this sub-key of the key opened last.
    OpenSubKey(String),
    /// Read this value of the key opened last.
    ReadValue(String),
    /// The lookup is over, with this result.
    Finish(Result<Option<Vec<u8>>, MonitorError>),
}

/// A reply of the kind that the request of `stage` can get.
pub open spec fn reply_fits(stage: EdidStage, reply: RegistryReply) -> bool {
    match reply {
        RegistryReply::Opened => stage != EdidStage::EdidValue,
        RegistryReply::Binary(_) => stage == EdidStage::EdidValue,
        RegistryReply::Failed(_) => true,
    }
}

/// The walk over `entries` ends with `err`: the error of its first failing entry.
pub open spec fn walk_fails_with(entries: Seq<Result<DriverKeys, RegistryError>>, err: MonitorError) -> bool {
    exists|k: int|
        0 <= k < entries.len() && (forall|j: int| 0 <= j < k ==> !entry_fails(#[trigger] entries[j]))
            && entry_error(#[trigger] entries[k], err)
}

/// `s` is the first of `names` that is not an interface name.
pub open spec fn first_invalid_name(names: Seq<String>, s: Seq<char>) -> bool {
    exists|k: int|
        0 <= k < names.len() && (forall|j: int| 0 <= j < k ==> is_interface_name(#[trigger] names[j]@))
            && !is_interface_name(#[trigger] names[k]@) && s == names[k]@
}

fn driver_char(c: char) -> (r: bool)
    ensures
        r == is_driver_char(c),
{
    ('A' <= c && c <= 'Z') || ('0' <= c && c <= '9')
}

fn monitor_char(c: char) -> (r: bool)
    ensures
        r == is_monitor_char(c),
{
    driver_char(c) || ('a' <= c && c <= 'z') || c == '&'
}

/// The `k`-th character of the interface-name prefix.
fn prefix_char(k: usize) -> (c: char)
    requires
        k < 12,
    ensures
        c == interface_prefix()[k as int],
{
    match k {
        0 | 1 | 3 => '\\',
        2 => '?',
        4 => 'D',
        5 => 'I',
        6 => 'S',
        7 => 'P',
        8 => 'L',
        9 => 'A',
        10 => 'Y',
        _ => '#',
    }
}

impl Monitor {
    /// A copy of this identity.
    pub fn duplicate(&self) -> (r: Monitor)
        ensures
            r@ == self@,
    {
        Monitor { driver_id: self.driver_id.clone(), id: self.id.clone() }
    }

    /// The path of the key of driver `driver_id`, under the local-machine hive.
    pub fn driver_key(driver_id: &String) -> (r: String)
        ensures
            r@ == driver_key_path(driver_id@),
    {
        let mut path = String::from_str(LIST_PATH);
        path.append("\\");
        path.append(driver_id.as_str());
        proof {
            reveal_strlit("\\");
        }
        path
    }

    /// The first request of reading this monitor's EDID, given the raw path of
    /// its registry key: open its driver's key. A path that is empty or starts
    /// with a zero unit means the monitor has no registry key, and so no EDID:
    /// the lookup is over at once, before any request is made.
    pub fn edid(&self, key_path: &[u16]) -> (r: EdidAction)
        ensures
            key_path@.len() == 0 || key_path@[0] == 0 ==> (r matches EdidAction::Finish(Ok(None))),
            key_path@.len() > 0 && key_path@[0] != 0 ==> (r matches EdidAction::OpenKey(path)
                && path@ == driver_key_path(self.driver_id@)),
    {
        if key_path.len() == 0 || key_path[0] == 0 {
            EdidAction::Finish(Ok(None))
        } else {
            EdidAction::OpenKey(Self::driver_key(&self.driver_id))
        }
    }

    /// The next request of reading this monitor's EDID, after the request of
    /// `stage` got `reply`: the driver key, the monitor's key and its
    /// parameters key are opened in turn, then the EDID value is read. A
    /// failure to open a key fails with `GetParams`, one to read the value with
    /// `GetEdid`.
    pub fn edid_next(&self, stage: EdidStage, reply: RegistryReply) -> (r: EdidAction)
        requires
            reply_fits(stage, reply),
        ensures
            match reply {
                RegistryReply::Failed(e) => match r {
                    EdidAction::Finish(Err(MonitorError::GetParams { monitor, source })) => stage
                        != EdidStage::EdidValue && monitor@ == self@ && source == e,
                    EdidAction::Finish(Err(MonitorError::GetEdid { monitor, source })) => stage
                        == EdidStage::EdidValue && monitor@ == self@ && source == e,
                    _ => false,
                },
                RegistryReply::Binary(bytes) => match r {
                    EdidAction::Finish(Ok(Some(found))) => found@ == bytes@,
                    _ => false,
                },
                RegistryReply::Opened => match r {
                    EdidAction::OpenSubKey(name) => (stage == EdidStage::DriverKey && name@
                        == self.id@) || (stage == EdidStage::MonitorKey && name@ == PARAMS_KEY@),
                    EdidAction::ReadValue(name) => stage == EdidStage::ParamsKey && name@
                        == EDID_VALUE@,
                    _ => false,
                },
            },
    {
        match reply {
            RegistryReply::Failed(e) => {
                if stage == EdidStage::EdidValue {
                    EdidAction::Finish(Err(MonitorError::GetEdid { monitor: self.duplicate(), source: e }))
                } else {
                    EdidAction::Finish(Err(MonitorError::GetParams { monitor: self.duplicate(), source: e }))
                }
            },
            RegistryReply::Binary(bytes) => EdidAction::Finish(Ok(Some(bytes))),
            RegistryReply::Opened => match stage {
                EdidStage::DriverKey => EdidAction::OpenSubKey(self.id.clone()),
                EdidStage::MonitorKey => EdidAction::OpenSubKey(String::from_str(PARAMS_KEY)),
                _ => EdidAction::ReadValue(String::from_str(EDID_VALUE)),
            },
        }
    }

    /// The monitors under one driver key: one for each sub-key whose name
    /// could be read, in order; a sub-key that cannot be read is no monitor
    /// and is skipped. A driver key that cannot be opened fails the call.
    pub fn for_driver(
        driver_id: &String,
        monitor_keys: &Result<Vec<Result<String, RegistryError>>, RegistryError>,
    ) -> (r: Result<Vec<Monitor>, MonitorError>)
        ensures
            match monitor_keys {
                Err(e) => match r {
                    Err(MonitorError::ListMonitorsForDriver { driver_id: d, source }) => d@
                        == driver_id@ && source == *e,
                    _ => false,
                },
                Ok(keys) => match r {
                    Ok(list) => monitor_views(list@) == driver_monitors(driver_id@, keys@),
                    Err(_) => false,
                },
            },
    {
        match monitor_keys {
            Err(e) => Err(MonitorError::ListMonitorsForDriver { driver_id: driver_id.clone(), source: *e }),
            Ok(keys) => {
                let mut list: Vec<Monitor> = Vec::new();
                let mut i: usize = 0;
                while i < keys.len()
                    invariant
                        i <= keys@.len(),
                        monitor_views(list@) == driver_monitors(driver_id@, keys@.subrange(0, i as int)),
                    decreases keys@.len() - i,
                {
                    proof {
                        assert(keys@.subrange(0, i + 1).drop_last() =~= keys@.subrange(0, i as int));
                    }
                    match &keys[i] {
                        Ok(key) => {
                            list.push(Monitor { driver_id: driver_id.clone(), id: key.clone() });
                            assert(monitor_views(list@) =~= driver_monitors(driver_id@, keys@.subrange(0, i as int)).push((driver_id@, key@)));
                        },
                        Err(_) => {},
                    }
                    i = i + 1;
                }
                assert(keys@.subrange(0, i as int) =~= keys@);
                Ok(list)
            },
        }
    }

    /// Every monitor-looking key of the display-enumeration tree: the
    /// monitors of each driver in turn. A driver key that cannot be opened,
    /// like a monitor sub-key that cannot be read, is skipped; the call fails
    /// only when the tree or the list of its driver keys cannot be read
    /// (`ListDisplayDrivers`, with the first such failure), or when there are
    /// driver keys and none of them can be opened (`ListMonitorsForDriver`,
    /// with the failure of the first). Expect spurious and duplicate results.
    pub fn all(drivers: &Result<Vec<Result<DriverKeys, RegistryError>>, RegistryError>) -> (r:
        Result<Vec<Monitor>, MonitorError>)
        ensures
            match drivers {
                Err(e) => r == Err::<Vec<Monitor>, MonitorError>(MonitorError::ListDisplayDrivers(*e)),
                Ok(entries) => match r {
                    Ok(list) => (forall|k: int| 0 <= k < entries@.len() ==> !entry_fails(#[trigger] entries@[k]))
                        && !every_driver_failed(entries@)
                        && monitor_views(list@) == walked_monitors(entries@),
                    Err(err) => walk_fails_with(entries@, err) || ((forall|k: int|
                        0 <= k < entries@.len() ==> !entry_fails(#[trigger] entries@[k]))
                        && every_driver_failed(entries@) && first_driver_error(entries@, err)),
                },
            },
    {
        let entries = match drivers {
            Err(e) => { return Err(MonitorError::ListDisplayDrivers(*e)); },
            Ok(entries) => entries,
        };
        let mut all_monitors: Vec<Monitor> = Vec::new();
        let mut opened = false;
        let mut first_failure: Option<MonitorError> = None;
        let mut i: usize = 0;
        while i < entries.len()
            invariant
                *drivers == Ok::<Vec<Result<DriverKeys, RegistryError>>, RegistryError>(*entries),
                i <= entries@.len(),
                forall|j: int| 0 <= j < i ==> !entry_fails(#[trigger] entries@[j]),
                opened ==> exists|j: int| 0 <= j < i && !driver_key_failed(#[trigger] entries@[j]),
                !opened ==> forall|j: int| 0 <= j < i ==> driver_key_failed(#[trigger] entries@[j]),
                i > 0 && driver_key_failed(entries@[0]) ==> (first_failure matches Some(err)
                    && first_driver_error(entries@, err)),
                monitor_views(all_monitors@) == walked_monitors(entries@.subrange(0, i as int)),
            decreases entries@.len() - i,
        {
            proof {
                assert(entries@.subrange(0, i + 1).drop_last() =~= entries@.subrange(0, i as int));
                assert(entries@.subrange(0, i + 1).last() == entries@[i as int]);
            }
            match &entries[i] {
                Err(e) => {
                    let err = MonitorError::ListDisplayDrivers(*e);
                    assert(entry_error(entries@[i as int], err));
                    assert(walk_fails_with(entries@, err));
                    assert(drivers is Ok);
                    return Err(err);
                },
                Ok(dk) => {
                    match Self::for_driver(&dk.driver_id, &dk.monitor_keys) {
                        Err(err) => {
                            assert(driver_key_failed(entries@[i as int]));
                            if i == 0 {
                                assert(first_driver_error(entries@, err));
                                first_failure = Some(err);
                            }
                        },
                        Ok(mut monitors) => {
                            let ghost before = all_monitors@;
                            let ghost found = monitors@;
                            all_monitors.append(&mut monitors);
                            assert(monitor_views(all_monitors@) =~= monitor_views(before) + monitor_views(found));
                            assert(!driver_key_failed(entries@[i as int]));
                            opened = true;
                        },
                    }
                },
            }
            i = i + 1;
        }
        assert(entries@.subrange(0, i as int) =~= entries@);
        assert(drivers is Ok);
        if !opened && i > 0 {
            assert(driver_key_failed(entries@[0]));
            match first_failure {
                Some(err) => {
                    return Err(err);
                },
                None => {},
            }
        }
        Ok(all_monitors)
    }

    /// The monitors that a window is on, from the interface names of the
    /// monitors that its device context covers (`Err` with the host's code
    /// when it has none). A name that is not an interface name fails the call
    /// with the first such name.
    pub fn intersecting(window: usize, interface_names: &Result<Vec<String>, WinError>) -> (r:
        Result<Vec<Monitor>, MonitorError>)
        requires
            window != 0,
        ensures
            match interface_names {
                Err(code) => r == Err::<Vec<Monitor>, MonitorError>(MonitorError::ListIntersecting { window, source: *code }),
                Ok(names) => match r {
                    Ok(list) => list@.len() == names@.len() && forall|k: int|
                        0 <= k < names@.len() ==> names_monitor(
                            #[trigger] names@[k]@,
                            list@[k].driver_id@,
                            list@[k].id@,
                        ),
                    Err(MonitorError::InvalidInterface(s)) => first_invalid_name(names@, s@),
                    Err(_) => false,
                },
            },
    {
        let names = match interface_names {
            Err(code) => { return Err(MonitorError::ListIntersecting { window, source: *code }); },
            Ok(names) => names,
        };
        let mut list: Vec<Monitor> = Vec::new();
        let mut i: usize = 0;
        while i < names.len()
            invariant
                *interface_names == Ok::<Vec<String>, WinError>(*names),
                i <= names@.len(),
                list@.len() == i,
                forall|k: int| 0 <= k < i ==> names_monitor(
                    #[trigger] names@[k]@,
                    list@[k].driver_id@,
                    list@[k].id@,
                ),
                forall|j: int| 0 <= j < i ==> is_interface_name(#[trigger] names@[j]@),
            decreases names@.len() - i,
        {
            match Self::from_interface_name(names[i].as_str()) {
                Ok(mon) => {
                    list.push(mon);
                },
                Err(err) => {
                    assert(forall|j: int| 0 <= j < i ==> is_interface_name(#[trigger] names@[j]@));
                    assert(!is_interface_name(names@[i as int]@));
                    assert(first_invalid_name(names@, names@[i as int]@));
                    assert(interface_names is Ok);
                    return Err(err);
                },
            }
            i = i + 1;
        }
        Ok(list)
    }

    /// Reads the driver id and the monitor id off an interface name of the
    /// form `\\?\DISPLAY#<driver id>#<monitor id>#{<guid>}`; any other name
    /// is refused whole.
    pub fn from_interface_name(name: &str) -> (r: Result<Monitor, MonitorError>)
        ensures
            match r {
                Ok(mon) => names_monitor(name@, mon.driver_id@, mon.id@),
                Err(MonitorError::InvalidInterface(s)) => s@ == name@ && !is_interface_name(
                    name@,
                ),
                Err(_) => false,
            },
    {
        proof {
            lemma_scan_interface_name(name@);
        }
        let ghost s = name@;
        let n = name.unicode_len();
        if n < 12 {
            return Err(MonitorError::InvalidInterface(name.to_owned()));
        }
        let mut k: usize = 0;
        while k < 12
            invariant
                s == name@,
                n == s.len(),
                12 <= n,
                k <= 12,
                forall|t: int| 0 <= t < k ==> s[t] == interface_prefix()[t],
            decreases 12 - k,
        {
            if name.get_char(k) != prefix_char(k) {
                assert(s.subrange(0, 12)[k as int] != interface_prefix()[k as int]);
                return Err(MonitorError::InvalidInterface(name.to_owned()));
            }
            k = k + 1;
        }
        assert(s.subrange(0, 12) =~= interface_prefix());
        let mut i: usize = 12;
        while i < n && driver_char(name.get_char(i))
            invariant
                s == name@,
                n == s.len(),
                12 <= i <= n,
                forall|t: int| 12 <= t < i ==> segment_char(#[trigger] s[t], false),
            decreases n - i,
        {
            i = i + 1;
        }
        proof {
            lemma_run_end(s, 12, i as int, false);
        }
        if i == 12 || i >= n || name.get_char(i) != '#' {
            return Err(MonitorError::InvalidInterface(name.to_owned()));
        }
        let mut j: usize = i + 1;
        while j < n && monitor_char(name.get_char(j))
            invariant
                s == name@,
                n == s.len(),
                i + 1 <= j <= n,
                forall|t: int| i + 1 <= t < j ==> segment_char(#[trigger] s[t], true),
            decreases n - j,
        {
            j = j + 1;
        }
        proof {
            lemma_run_end(s, i + 1, j as int, true);
        }
        if j == i + 1 || n - j <= 2 || name.get_char(j) != '#' || name.get_char(j + 1) != '{'
            || name.get_char(n - 1) != '}' {
            return Err(MonitorError::InvalidInterface(name.to_owned()));
        }
        let mut t: usize = j + 2;
        while t < n - 1
            invariant
                s == name@,
                n == s.len(),
                j + 2 <= t <= n - 1,
                forall|u: int| j + 2 <= u < t ==> #[trigger] s[u] != '\n',
            decreases n - t,
        {
            if name.get_char(t) == '\n' {
                return Err(MonitorError::InvalidInterface(name.to_owned()));
            }
            t = t + 1;
        }
        let driver_id = name.substring_char(12, i).to_owned();
        let id = name.substring_char(i + 1, j).to_owned();
        assert(scan_interface_name(s) == Some((driver_id@, id@)));
        Ok(Monitor { driver_id, id })
    }
}

} // verus!
