//! The text and classes of the resource monitor's metric cards.

use vstd::prelude::*;
use crate::metrics_format::{format_bytes, format_rate, format_uptime, spec_format_bytes, spec_format_uptime};
use crate::text::{decimal, push_decimal, str_eq};
use crate::fonts::{chars_lt, lemma_seq_lt_irreflexive, lemma_seq_lt_total, lemma_seq_lt_transitive, seq_lt};
use crate::text::chars_of;

verus! {

/// The usage of one mounted file system.
#[derive(Clone, Debug, PartialEq, Eq)]
pub struct DiskUsage {
    pub mount: String,
    pub used: u64,
    pub total: u64,
}

/// How a measured round-trip latency is shown.
#[derive(Debug, Clone, Copy, PartialEq, Eq, Structural)]
pub enum LatencyLevel {
    Normal,
    Warn,
    Danger,
    Unknown,
}

impl LatencyLevel {
    /// The CSS class of the network card for this level.
    pub open spec fn spec_class_name(self) -> Seq<char> {
        match self {
            LatencyLevel::Normal => "latency-normal"@,
            LatencyLevel::Warn => "latency-warn"@,
            LatencyLevel::Danger => "latency-danger"@,
            LatencyLevel::Unknown => "latency-unknown"@,
        }
    }

    /// The CSS class of the network card for this level.
    pub fn class_name(self) -> (r: &'static str)
        ensures
            r@ == self.spec_class_name(),
    {
        match self {
            LatencyLevel::Normal => "latency-normal",
            LatencyLevel::Warn => "latency-warn",
            LatencyLevel::Danger => "latency-danger",
            LatencyLevel::Unknown => "latency-unknown",
        }
    }
}

/// The level of a latency in milliseconds: 0 means not measured, under
/// 150 is normal, under 300 a warning, anything slower a danger.
pub open spec fn spec_latency_level(latency_ms: u64) -> LatencyLevel {
    if latency_ms == 0 {
        LatencyLevel::Unknown
    } else if latency_ms < 150 {
        LatencyLevel::Normal
    } else if latency_ms < 300 {
        LatencyLevel::Warn
    } else {
        LatencyLevel::Danger
    }
}

/// The level of a latency in milliseconds.
pub fn latency_level(latency_ms: u64) -> (r: LatencyLevel)
    ensures
        r == spec_latency_level(latency_ms),
{
    if latency_ms == 0 {
        LatencyLevel::Unknown
    } else if latency_ms < 150 {
        LatencyLevel::Normal
    } else if latency_ms < 300 {
        LatencyLevel::Warn
    } else {
        LatencyLevel::Danger
    }
}

/// A slower round trip is never shown as healthier: over measured
/// latencies the level only rises.
pub proof fn law_latency_levels_rise_with_latency(a: u64, b: u64)
    requires
        0 < a <= b,
    ensures
        spec_latency_level(a) == LatencyLevel::Danger ==> spec_latency_level(b) == LatencyLevel::Danger,
        spec_latency_level(a) == LatencyLevel::Warn ==> spec_latency_level(b) != LatencyLevel::Normal,
        spec_latency_level(b) != LatencyLevel::Unknown,
{
}

/// The CPU card's core count, or `--` when no sample counted any core.
pub fn format_cores(cores: u32, unit: &str) -> (r: String)
    ensures
        r@ == if cores == 0 {
            "--"@
        } else {
            decimal(cores as nat) + " "@ + unit@
        },
{
    let mut s = String::new();
    if cores == 0 {
        s.append("--");
    } else {
        push_decimal(&mut s, cores as u128);
        s.append(" ");
        s.append(unit);
    }
    s
}

/// The network card's title: the label, followed by the latency when one
/// was measured.
pub fn format_network_title(network_label: &str, latency_ms: u64) -> (r: String)
    ensures
        r@ == if latency_ms == 0 {
            network_label@
        } else {
            network_label@ + " "@ + decimal(latency_ms as nat) + "ms"@
        },
{
    let mut s = String::new();
    s.append(network_label);
    if latency_ms != 0 {
        s.append(" ");
        push_decimal(&mut s, latency_ms as u128);
        s.append("ms");
    }
    s
}

/// The load card's second line: the uptime.
pub fn format_load_subvalue(uptime_secs: u64) -> (r: String)
    ensures
        r@ == spec_format_uptime(uptime_secs as nat),
{
    format_uptime(uptime_secs)
}

/// The network card's second line: the upload rate.
pub fn format_network_subvalue(tx_rate: u64) -> (r: String)
    ensures
        r@ == "↑ "@ + spec_format_bytes(tx_rate as nat) + "/s"@,
{
    let rate = format_rate(tx_rate);
    let mut s = String::new();
    s.append("↑ ");
    s.append(rate.as_str());
    s
}

/// The class of a card's value row: stacked for the network card's two rates.
pub fn metric_value_row_class(stacked_values: bool) -> (r: &'static str)
    ensures
        r@ == if stacked_values {
            "metric-value-row is-stacked"@
        } else {
            "metric-value-row"@
        },
{
    if stacked_values {
        "metric-value-row is-stacked"
    } else {
        "metric-value-row"
    }
}

/// The root file system's entry: the first disk mounted at `/`.
pub fn root_disk(disks: &[DiskUsage]) -> (r: Option<usize>)
    ensures
        match r {
            Some(i) => i < disks@.len() && disks@[i as int].mount@ == "/"@ && forall|j: int| 0 <= j < i ==> #[trigger] disks@[j].mount@ != "/"@,
            None => forall|j: int| 0 <= j < disks@.len() ==> #[trigger] disks@[j].mount@ != "/"@,
        },
{
    let mut i: usize = 0;
    while i < disks.len()
        invariant
            i <= disks@.len(),
            forall|j: int| 0 <= j < i ==> #[trigger] disks@[j].mount@ != "/"@,
        decreases disks@.len() - i,
    {
        if str_eq(disks[i].mount.as_str(), "/") {
            return Some(i);
        }
        i = i + 1;
    }
    None
}

/// The disk card's second line: used and total size of the root file
/// system, or `--` when no disk is mounted at `/`.
pub fn format_root_disk_usage(disks: &[DiskUsage]) -> (r: String)
    ensures
        match root_disk_index(disks@) {
            Some(i) => r@ == spec_format_bytes(disks@[i].used as nat) + " / "@ + spec_format_bytes(disks@[i].total as nat),
            None => r@ == "--"@,
        },
{
    match root_disk(disks) {
        Some(i) => {
            let used = format_bytes(disks[i].used);
            let total = format_bytes(disks[i].total);
            let mut s = String::new();
            s.append(used.as_str());
            s.append(" / ");
            s.append(total.as_str());
            proof {
                lemma_root_disk_index(disks@, i as int);
            }
            s
        },
        None => {
            proof {
                lemma_root_disk_none(disks@);
            }
            let mut s = String::new();
            s.append("--");
            s
        },
    }
}

/// The index of the first disk mounted at `/`, scanning from the front.
pub open spec fn root_disk_index(disks: Seq<DiskUsage>) -> Option<int>
    decreases disks.len(),
{
    if disks.len() == 0 {
        None
    } else if disks[0].mount@ == "/"@ {
        Some(0)
    } else {
        match root_disk_index(disks.drop_first()) {
            Some(i) => Some(i + 1),
            None => None,
        }
    }
}

proof fn lemma_root_disk_index(disks: Seq<DiskUsage>, i: int)
    requires
        0 <= i < disks.len(),
        disks[i].mount@ == "/"@,
        forall|j: int| 0 <= j < i ==> #[trigger] disks[j].mount@ != "/"@,
    ensures
        root_disk_index(disks) == Some(i),
    decreases disks.len(),
{
    if i > 0 {
        let rest = disks.drop_first();
        assert forall|j: int| 0 <= j < i - 1 implies #[trigger] rest[j].mount@ != "/"@ by {
            assert(rest[j] == disks[j + 1]);
        }
        assert(disks[0].mount@ != "/"@);
        lemma_root_disk_index(rest, i - 1);
    }
}

proof fn lemma_root_disk_none(disks: Seq<DiskUsage>)
    requires
        forall|j: int| 0 <= j < disks.len() ==> #[trigger] disks[j].mount@ != "/"@,
    ensures
        root_disk_index(disks) is None,
    decreases disks.len(),
{
    if disks.len() > 0 {
        let rest = disks.drop_first();
        assert forall|j: int| 0 <= j < rest.len() implies #[trigger] rest[j].mount@ != "/"@ by {
            assert(rest[j] == disks[j + 1]);
        }
        assert(disks[0].mount@ != "/"@);
        lemma_root_disk_none(rest);
    }
}

/// Where a combined throughput falls on the network card's meter: nothing
/// moving, beyond the meter, or within one of its four quarters (from
/// `start` to `end` bytes per second, starting at `quarter` quarters full).
#[derive(Debug, Clone, Copy, PartialEq, Eq, Structural)]
pub enum ActivityBand {
    Idle,
    Quarter { start: u64, end: u64, quarter: u8 },
    Full,
}

/// The meter quarter a combined throughput falls in: up to 64 KiB/s, 1 MiB/s,
/// 10 MiB/s and 100 MiB/s; above that the meter is full.
pub open spec fn spec_activity_band(rx_rate: u64, tx_rate: u64) -> ActivityBand {
    let total: int = if rx_rate + tx_rate > u64::MAX { u64::MAX as int } else { rx_rate + tx_rate };
    if total == 0 {
        ActivityBand::Idle
    } else if total <= 65536 {
        ActivityBand::Quarter { start: 0, end: 65536, quarter: 0 }
    } else if total <= 1048576 {
        ActivityBand::Quarter { start: 65536, end: 1048576, quarter: 1 }
    } else if total <= 10485760 {
        ActivityBand::Quarter { start: 1048576, end: 10485760, quarter: 2 }
    } else if total <= 104857600 {
        ActivityBand::Quarter { start: 10485760, end: 104857600, quarter: 3 }
    } else {
        ActivityBand::Full
    }
}

/// The meter quarter of the combined receive and send rates (the sum
/// saturating at `u64::MAX`).
pub fn activity_band(rx_rate: u64, tx_rate: u64) -> (r: ActivityBand)
    ensures
        r == spec_activity_band(rx_rate, tx_rate),
{
    let total = rx_rate.saturating_add(tx_rate);
    if total == 0 {
        ActivityBand::Idle
    } else if total <= 65536 {
        ActivityBand::Quarter { start: 0, end: 65536, quarter: 0 }
    } else if total <= 1048576 {
        ActivityBand::Quarter { start: 65536, end: 1048576, quarter: 1 }
    } else if total <= 10485760 {
        ActivityBand::Quarter { start: 1048576, end: 10485760, quarter: 2 }
    } else if total <= 104857600 {
        ActivityBand::Quarter { start: 10485760, end: 104857600, quarter: 3 }
    } else {
        ActivityBand::Full
    }
}

/// Whether a disk is the root file system.
pub open spec fn is_root_mount(d: DiskUsage) -> bool {
    d.mount@ == "/"@
}

/// Whether disk `a` (at index `ia` of the list) is listed before disk `b`
/// (at `ib`): the root file system first, then by mount point, and equal
/// mount points in their original order.
pub open spec fn disk_precedes(a: DiskUsage, ia: int, b: DiskUsage, ib: int) -> bool {
    if is_root_mount(a) != is_root_mount(b) {
        is_root_mount(a)
    } else if a.mount@ != b.mount@ {
        seq_lt(a.mount@, b.mount@)
    } else {
        ia < ib
    }
}

/// Whether `order` lists the indices `0..n` once each.
pub open spec fn is_index_permutation(order: Seq<int>, n: int) -> bool {
    &&& order.len() == n
    &&& forall|i: int| 0 <= i < n ==> 0 <= #[trigger] order[i] < n
    &&& forall|i: int, j: int| 0 <= i < j < n ==> #[trigger] order[i] != #[trigger] order[j]
}

/// Whether `order` lists the disks in display order.
pub open spec fn in_display_order(disks: Seq<DiskUsage>, order: Seq<int>) -> bool {
    forall|i: int, j: int| 0 <= i < j < order.len() ==> disk_precedes(
        disks[#[trigger] order[i]],
        order[i],
        disks[#[trigger] order[j]],
        order[j],
    )
}

proof fn lemma_disk_precedes_transitive(a: DiskUsage, ia: int, b: DiskUsage, ib: int, c: DiskUsage, ic: int)
    requires
        disk_precedes(a, ia, b, ib),
        disk_precedes(b, ib, c, ic),
    ensures
        disk_precedes(a, ia, c, ic),
{
    if is_root_mount(a) == is_root_mount(b) && is_root_mount(b) == is_root_mount(c) {
        let (ma, mb, mc) = (a.mount@, b.mount@, c.mount@);
        if ma != mb && mb != mc {
            lemma_seq_lt_transitive(ma, mb, mc);
            if ma == mc {
                lemma_seq_lt_irreflexive(ma);
            }
        }
    }
}

proof fn lemma_disk_precedes_total(a: DiskUsage, ia: int, b: DiskUsage, ib: int)
    requires
        ia != ib,
    ensures
        disk_precedes(a, ia, b, ib) || disk_precedes(b, ib, a, ia),
{
    if a.mount@ != b.mount@ {
        lemma_seq_lt_total(a.mount@, b.mount@);
    }
}

/// Whether disk `a` at `ia` is listed before disk `b` at `ib`.
fn disk_listed_before(a: &DiskUsage, ia: usize, b: &DiskUsage, ib: usize) -> (r: bool)
    ensures
        r == disk_precedes(*a, ia as int, *b, ib as int),
{
    let ra = str_eq(a.mount.as_str(), "/");
    let rb = str_eq(b.mount.as_str(), "/");
    if ra != rb {
        return ra;
    }
    let av = chars_of(a.mount.as_str());
    let bv = chars_of(b.mount.as_str());
    if chars_lt(&av, &bv) {
        proof {
            lemma_seq_lt_irreflexive(av@);
        }
        true
    } else if chars_lt(&bv, &av) {
        proof {
            lemma_seq_lt_irreflexive(av@);
        }
        false
    } else {
        proof {
            if av@ != bv@ {
                lemma_seq_lt_total(av@, bv@);
            }
        }
        ia < ib
    }
}

/// The display order of the disks, as indices into the list.
fn disk_order(disks: &[DiskUsage]) -> (r: Vec<usize>)
    ensures
        is_index_permutation(r@.map_values(|k: usize| k as int), disks@.len() as int),
        in_display_order(disks@, r@.map_values(|k: usize| k as int)),
{
    let mut order: Vec<usize> = Vec::new();
    let mut m: usize = 0;
    while m < disks.len()
        invariant
            m <= disks@.len(),
            is_index_permutation(order@.map_values(|k: usize| k as int), m as int),
            in_display_order(disks@, order@.map_values(|k: usize| k as int)),
        decreases disks@.len() - m,
    {
        let ghost ov = order@.map_values(|k: usize| k as int);
        assert forall|j: int| 0 <= j < order@.len() implies (order@[j] as int) < m by {
            assert(ov[j] == order@[j] as int);
        }
        let mut p: usize = 0;
        while p < order.len() && disk_listed_before(&disks[order[p]], order[p], &disks[m], m)
            invariant
                p <= order@.len(),
                m < disks@.len(),
                ov == order@.map_values(|k: usize| k as int),
                is_index_permutation(ov, m as int),
                in_display_order(disks@, ov),
                forall|j: int| 0 <= j < order@.len() ==> (order@[j] as int) < m,
                forall|j: int| 0 <= j < p ==> disk_precedes(disks@[#[trigger] ov[j]], ov[j], disks@[m as int], m as int),
            decreases order@.len() - p,
        {
            p = p + 1;
        }
        proof {
            assert forall|j: int| p <= j < ov.len() implies disk_precedes(disks@[m as int], m as int, disks@[#[trigger] ov[j]], ov[j]) by {
                let k = ov[p as int];
                assert(k != m);
                lemma_disk_precedes_total(disks@[k], k, disks@[m as int], m as int);
                if j > p {
                    assert(disk_precedes(disks@[ov[p as int]], ov[p as int], disks@[ov[j]], ov[j]));
                    lemma_disk_precedes_transitive(disks@[m as int], m as int, disks@[ov[p as int]], ov[p as int], disks@[ov[j]], ov[j]);
                }
            }
        }
        order.insert(p, m);
        proof {
            lemma_insert_in_display_order(disks@, ov, p as int, m as int);
            assert(order@.map_values(|k: usize| k as int) =~= ov.insert(p as int, m as int));
        }
        m = m + 1;
    }
    order
}

/// Inserting the next index where it belongs keeps the display order.
proof fn lemma_insert_in_display_order(disks: Seq<DiskUsage>, ov: Seq<int>, p: int, m: int)
    requires
        0 <= m < disks.len(),
        is_index_permutation(ov, m),
        in_display_order(disks, ov),
        0 <= p <= ov.len(),
        forall|j: int| 0 <= j < p ==> disk_precedes(disks[#[trigger] ov[j]], ov[j], disks[m], m),
        forall|j: int| p <= j < ov.len() ==> disk_precedes(disks[m], m, disks[#[trigger] ov[j]], ov[j]),
    ensures
        is_index_permutation(ov.insert(p, m), m + 1),
        in_display_order(disks, ov.insert(p, m)),
{
    let nv = ov.insert(p, m);
    ov.insert_ensures(p, m);
    assert forall|i: int| 0 <= i < m + 1 implies 0 <= #[trigger] nv[i] < m + 1 by {
        if i < p {
            assert(nv[i] == ov[i]);
        } else if i > p {
            assert(nv[i] == ov[i - 1]);
        }
    }
    assert forall|i: int, j: int| 0 <= i < j < m + 1 implies #[trigger] nv[i] != #[trigger] nv[j] by {
        if j < p {
            assert(nv[i] == ov[i] && nv[j] == ov[j]);
        } else if j == p {
            assert(nv[i] == ov[i]);
        } else if i < p {
            assert(nv[i] == ov[i] && nv[j] == ov[j - 1]);
        } else if i == p {
            assert(nv[j] == ov[j - 1]);
        } else {
            assert(nv[i] == ov[i - 1] && nv[j] == ov[j - 1]);
        }
    }
    assert forall|i: int, j: int| 0 <= i < j < nv.len() implies disk_precedes(
        disks[#[trigger] nv[i]],
        nv[i],
        disks[#[trigger] nv[j]],
        nv[j],
    ) by {
        if j < p {
            assert(nv[i] == ov[i] && nv[j] == ov[j]);
        } else if j == p {
            assert(nv[i] == ov[i]);
        } else if i < p {
            assert(nv[i] == ov[i] && nv[j] == ov[j - 1]);
        } else if i == p {
            assert(nv[j] == ov[j - 1]);
        } else {
            assert(nv[i] == ov[i - 1] && nv[j] == ov[j - 1]);
        }
    }
}

/// A copy of a disk's usage.
fn clone_disk(d: &DiskUsage) -> (r: DiskUsage)
    ensures
        r == *d,
{
    DiskUsage { mount: d.mount.clone(), used: d.used, total: d.total }
}

/// The disks in display order: the root file system first, then by mount
/// point; disks with the same mount point keep their order.
pub fn sorted_disks(disks: Vec<DiskUsage>) -> (r: Vec<DiskUsage>)
    ensures
        exists|order: Seq<int>| #![trigger in_display_order(disks@, order)]
            is_index_permutation(order, disks@.len() as int) && in_display_order(disks@, order) && r@.len() == order.len()
                && forall|i: int| 0 <= i < order.len() ==> #[trigger] r@[i] == disks@[order[i]],
{
    let order = disk_order(disks.as_slice());
    let ghost ov = order@.map_values(|k: usize| k as int);
    let mut out: Vec<DiskUsage> = Vec::new();
    let mut i: usize = 0;
    while i < order.len()
        invariant
            i <= order@.len(),
            ov == order@.map_values(|k: usize| k as int),
            is_index_permutation(ov, disks@.len() as int),
            out@.len() == i,
            forall|j: int| 0 <= j < i ==> #[trigger] out@[j] == disks@[ov[j]],
        decreases order@.len() - i,
    {
        assert(0 <= ov[i as int] < disks@.len());
        out.push(clone_disk(&disks[order[i]]));
        i = i + 1;
    }
    out
}

} // verus!
