//! The grammar of monitor interface names:
//! `\\?\DISPLAY#<driver id>#<monitor id>#{<guid>}`.
use vstd::prelude::*;

verus! {

/// The text every interface name starts with.
pub open spec fn interface_prefix() -> Seq<char> {
    seq!['\\', '\\', '?', '\\', 'D', 'I', 'S', 'P', 'L', 'A', 'Y', '#']
}

/// A character of a driver id: an upper-case letter or a digit.
pub open spec fn is_driver_char(c: char) -> bool {
    ('A' <= c && c <= 'Z') || ('0' <= c && c <= '9')
}

/// A character of a monitor id: a letter, a digit or `&`.
pub open spec fn is_monitor_char(c: char) -> bool {
    is_driver_char(c) || ('a' <= c && c <= 'z') || c == '&'
}

/// A character of a segment: of a monitor id when `monitor`, else of a driver id.
pub open spec fn segment_char(c: char, monitor: bool) -> bool {
    if monitor {
        is_monitor_char(c)
    } else {
        is_driver_char(c)
    }
}

pub open spec fn is_driver_id(d: Seq<char>) -> bool {
    d.len() > 0 && forall|i: int| 0 <= i < d.len() ==> is_driver_char(#[trigger] d[i])
}

pub open spec fn is_monitor_id(m: Seq<char>) -> bool {
    m.len() > 0 && forall|i: int| 0 <= i < m.len() ==> is_monitor_char(#[trigger] m[i])
}

/// The text between the GUID braces: anything on one line.
pub open spec fn is_guid_text(g: Seq<char>) -> bool {
    forall|i: int| 0 <= i < g.len() ==> #[trigger] g[i] != '\n'
}

/// The interface name made of a driver id, a monitor id and a GUID's text.
pub open spec fn interface_name_of(d: Seq<char>, m: Seq<char>, g: Seq<char>) -> Seq<char> {
    interface_prefix() + d + seq!['#'] + m + seq!['#', '{'] + g + seq!['}']
}

/// `s` is an interface name with driver id `d` and monitor id `m`.
pub open spec fn names_monitor(s: Seq<char>, d: Seq<char>, m: Seq<char>) -> bool {
    &&& is_driver_id(d)
    &&& is_monitor_id(m)
    &&& exists|g: Seq<char>| is_guid_text(g) && s == interface_name_of(d, m, g)
}

/// `s` follows the interface-name grammar.
pub open spec fn is_interface_name(s: Seq<char>) -> bool {
    exists|d: Seq<char>, m: Seq<char>| names_monitor(s, d, m)
}

/// Where the run of segment characters of `s` that starts at `start` ends.
pub open spec fn run_end(s: Seq<char>, start: int, monitor: bool) -> int
    decreases s.len() - start,
{
    if start < 0 || start >= s.len() || !segment_char(s[start], monitor) {
        start
    } else {
        run_end(s, start + 1, monitor)
    }
}

/// The two ids read off `s` by scanning it from the front, if it is well formed.
pub open spec fn scan_interface_name(s: Seq<char>) -> Option<(Seq<char>, Seq<char>)> {
    let i = run_end(s, 12, false);
    let j = run_end(s, i + 1, true);
    if s.len() >= 12 && s.subrange(0, 12) == interface_prefix() && 12 < i < s.len() && s[i]
        == '#' && i + 1 < j && j + 2 < s.len() && s[j] == '#' && s[j + 1] == '{' && s[s.len()
        - 1] == '}' && (forall|t: int| j + 2 <= t < s.len() - 1 ==> #[trigger] s[t] != '\n') {
        Some((s.subrange(12, i), s.subrange(i + 1, j)))
    } else {
        None
    }
}

/// A run found by a scan is the one `run_end` describes.
pub proof fn lemma_run_end(s: Seq<char>, start: int, k: int, monitor: bool)
    requires
        0 <= start <= k <= s.len(),
        forall|t: int| start <= t < k ==> segment_char(#[trigger] s[t], monitor),
        k == s.len() || !segment_char(s[k], monitor),
    ensures
        run_end(s, start, monitor) == k,
    decreases k - start,
{
    if start < k {
        lemma_run_end(s, start + 1, k, monitor);
    }
}

/// Where each part of an interface name stands in it.
proof fn lemma_interface_layout(d: Seq<char>, m: Seq<char>, g: Seq<char>)
    ensures
        ({
            let s = interface_name_of(d, m, g);
            let i = 12 + d.len() as int;
            let j = i + 1 + m.len() as int;
            &&& s.len() == j + 3 + g.len()
            &&& s.subrange(0, 12) == interface_prefix()
            &&& s.subrange(12, i) == d
            &&& s[i] == '#'
            &&& s.subrange(i + 1, j) == m
            &&& s[j] == '#'
            &&& s[j + 1] == '{'
            &&& s.subrange(j + 2, s.len() - 1) == g
            &&& s[s.len() - 1] == '}'
        }),
{
    let s = interface_name_of(d, m, g);
    let i = 12 + d.len() as int;
    let j = i + 1 + m.len() as int;
    assert(s.subrange(0, 12) =~= interface_prefix());
    assert(s.subrange(12, i) =~= d);
    assert(s.subrange(i + 1, j) =~= m);
    assert(s.subrange(j + 2, s.len() - 1) =~= g);
}

/// The scan accepts exactly the interface names, and reads off exactly the ids
/// they were made of.
pub proof fn lemma_scan_interface_name(s: Seq<char>)
    ensures
        match scan_interface_name(s) {
            Some((d, m)) => names_monitor(s, d, m),
            None => !is_interface_name(s),
        },
        forall|d: Seq<char>, m: Seq<char>|
            #[trigger] names_monitor(s, d, m) ==> scan_interface_name(s) == Some((d, m)),
{
    assert forall|d: Seq<char>, m: Seq<char>| #[trigger]
        names_monitor(s, d, m) implies scan_interface_name(s) == Some((d, m)) by {
        let g = choose|g: Seq<char>| is_guid_text(g) && s == interface_name_of(d, m, g);
        lemma_interface_layout(d, m, g);
        let i = 12 + d.len() as int;
        let j = i + 1 + m.len() as int;
        assert forall|t: int| 12 <= t < i implies segment_char(#[trigger] s[t], false) by {
            assert(s[t] == s.subrange(12, i)[t - 12]);
        }
        lemma_run_end(s, 12, i, false);
        assert forall|t: int| i + 1 <= t < j implies segment_char(#[trigger] s[t], true) by {
            assert(s[t] == s.subrange(i + 1, j)[t - i - 1]);
        }
        lemma_run_end(s, i + 1, j, true);
        assert forall|t: int| j + 2 <= t < s.len() - 1 implies #[trigger] s[t] != '\n' by {
            assert(s[t] == s.subrange(j + 2, s.len() - 1)[t - j - 2]);
        }
    }
    match scan_interface_name(s) {
        Some((d, m)) => {
            let i = run_end(s, 12, false);
            let j = run_end(s, i + 1, true);
            let g = s.subrange(j + 2, s.len() - 1);
            lemma_run_end_facts(s, 12, false);
            lemma_run_end_facts(s, i + 1, true);
            let x = interface_name_of(d, m, g);
            assert(x.len() == s.len());
            assert forall|t: int| 0 <= t < s.len() implies s[t] == x[t] by {
                if t < 12 {
                    assert(s[t] == s.subrange(0, 12)[t]);
                } else if t < i {
                    assert(s[t] == d[t - 12]);
                } else if t == i {
                } else if t < j {
                    assert(s[t] == m[t - i - 1]);
                } else if t <= j + 1 {
                } else if t < s.len() - 1 {
                    assert(s[t] == g[t - j - 2]);
                }
            }
            assert(s =~= x);
            assert forall|t: int| 0 <= t < d.len() implies is_driver_char(#[trigger] d[t]) by {
                assert(d[t] == s[t + 12]);
            }
            assert forall|t: int| 0 <= t < m.len() implies is_monitor_char(#[trigger] m[t]) by {
                assert(m[t] == s[t + i + 1]);
            }
            assert forall|t: int| 0 <= t < g.len() implies #[trigger] g[t] != '\n' by {
                assert(g[t] == s[t + j + 2]);
            }
            assert(is_guid_text(g) && s == interface_name_of(d, m, g));
            assert(names_monitor(s, d, m));
        },
        None => {
            if is_interface_name(s) {
                let (d, m) = choose|d: Seq<char>, m: Seq<char>| names_monitor(s, d, m);
                assert(names_monitor(s, d, m));
            }
        },
    }
}

/// An interface name made of a driver id, a monitor id and any GUID text is
/// well formed, and the only ids it names are those it was made of.
pub proof fn lemma_interface_name_round_trip(d: Seq<char>, m: Seq<char>, g: Seq<char>)
    requires
        is_driver_id(d),
        is_monitor_id(m),
        is_guid_text(g),
    ensures
        is_interface_name(interface_name_of(d, m, g)),
        forall|d2: Seq<char>, m2: Seq<char>|
            names_monitor(interface_name_of(d, m, g), d2, m2) ==> d2 == d && m2 == m,
{
    let s = interface_name_of(d, m, g);
    assert(names_monitor(s, d, m));
    lemma_scan_interface_name(s);
}

/// Every character of a run is a segment character, and the run is not shorter.
proof fn lemma_run_end_facts(s: Seq<char>, start: int, monitor: bool)
    requires
        0 <= start,
    ensures
        start <= run_end(s, start, monitor),
        run_end(s, start, monitor) <= s.len() || run_end(s, start, monitor) == start,
        forall|t: int|
            start <= t < run_end(s, start, monitor) ==> segment_char(#[trigger] s[t], monitor),
    decreases s.len() - start,
{
    if start < s.len() && segment_char(s[start], monitor) {
        lemma_run_end_facts(s, start + 1, monitor);
    }
}

} // verus!
