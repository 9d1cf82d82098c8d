//! The host quantities a dial can display, and how a raw reading becomes a
//! dial value.
use vstd::prelude::*;
use crate::dial::Percent;

verus! {

/// A host telemetry quantity shown on one dial.
#[derive(Copy, Clone, Debug, PartialEq, Eq, Hash, Structural)]
pub enum Metric {
    /// CPU load as a percentage.
    CpuLoad,
    /// Memory usage, as a percentage of total memory.
    Mem,
    /// Disk usage as a percentage of total disk space.
    DiskUsage,
    /// CPU temperature.
    CpuTemp,
    /// Swap usage, as a percentage of total swap space.
    Swap,
    /// Remaining battery charge.
    Battery,
}

/// The kinds of data a dial can show in a configuration that names dials
/// by UID.
#[derive(Copy, Clone, Debug, PartialEq, Eq, Structural)]
pub enum Data {
    CpuLoad,
    Mem,
    Disk,
    CpuTemp,
    Swap,
    Battery,
}

/// The name a dial showing `m` is given.
pub open spec fn spec_dial_name(m: Metric) -> Seq<char> {
    match m {
        Metric::Battery => "Battery Remaining"@,
        Metric::DiskUsage => "Disk Usage"@,
        Metric::CpuLoad => "CPU Load"@,
        Metric::CpuTemp => "CPU Temperature"@,
        Metric::Swap => "Swap Usage"@,
        Metric::Mem => "Memory Usage"@,
    }
}

/// The file name of the background image bundled for `m`.
pub open spec fn spec_img_file(m: Metric) -> Seq<char> {
    match m {
        Metric::Swap => "swap.png"@,
        Metric::CpuLoad => "cpu_load.png"@,
        Metric::CpuTemp => "cpu_temp.png"@,
        Metric::Mem => "mem.png"@,
        Metric::DiskUsage => "disk.png"@,
        Metric::Battery => "battery.png"@,
    }
}

impl Metric {
    pub fn dial_name(&self) -> (r: String)
        ensures
            r@ == spec_dial_name(*self),
    {
        let s: &str = match self {
            Metric::Battery => "Battery Remaining",
            Metric::DiskUsage => "Disk Usage",
            Metric::CpuLoad => "CPU Load",
            Metric::CpuTemp => "CPU Temperature",
            Metric::Swap => "Swap Usage",
            Metric::Mem => "Memory Usage",
        };
        s.to_string()
    }

    /// The bundled image for this metric; every metric has one.
    pub fn img_file(&self) -> (r: Option<&'static str>)
        ensures
            r matches Some(name) && name@ == spec_img_file(*self),
    {
        match self {
            Metric::Swap => Some("swap.png"),
            Metric::CpuLoad => Some("cpu_load.png"),
            Metric::CpuTemp => Some("cpu_temp.png"),
            Metric::Mem => Some("mem.png"),
            Metric::DiskUsage => Some("disk.png"),
            Metric::Battery => Some("battery.png"),
        }
    }
}

/// Distinct metrics get distinct dial names.
pub proof fn lemma_dial_names_distinct(a: Metric, b: Metric)
    requires
        a != b,
    ensures
        spec_dial_name(a) != spec_dial_name(b),
{
    reveal_strlit("Battery Remaining");
    reveal_strlit("Disk Usage");
    reveal_strlit("CPU Load");
    reveal_strlit("CPU Temperature");
    reveal_strlit("Swap Usage");
    reveal_strlit("Memory Usage");
    assert(spec_dial_name(a).len() != spec_dial_name(b).len() || spec_dial_name(a)[0]
        != spec_dial_name(b)[0] || spec_dial_name(a)[4] != spec_dial_name(b)[4]);
}

/// The percent used of a resource with `total` units of which `free` are
/// unused: `100 - free / (total / 100)`, in integer division. There is none
/// when `total` is under 100 units or `free` exceeds what `total` allows.
pub open spec fn spec_usage_percent(total: u64, free: u64) -> Option<int> {
    if total / 100 == 0 {
        None
    } else {
        let percent_free = free / (total / 100);
        if percent_free > 100 {
            None
        } else {
            Some(100 - percent_free)
        }
    }
}

/// Converts a used/free measurement into the percent shown on a dial.
pub fn usage_percent(total: u64, free: u64) -> (r: Option<Percent>)
    ensures
        r is Some <==> spec_usage_percent(total, free) is Some,
        r matches Some(p) ==> spec_usage_percent(total, free) == Some(p@),
{
    let unit = total / 100;
    if unit == 0 {
        return None;
    }
    let percent_free = free / unit;
    if percent_free > 100 {
        return None;
    }
    let used = (100 - percent_free) as u8;
    match Percent::new(used) {
        Ok(p) => Some(p),
        Err(_) => None,
    }
}

/// Adds up the sizes of several filesystems, as `(total, free)` pairs.
/// There is no sum when either total overflows 64 bits.
pub fn sum_filesystems(filesystems: &Vec<(u64, u64)>) -> (r: Option<(u64, u64)>)
    ensures
        r matches Some((t, f)) ==> t == sum_totals(filesystems@) && f == sum_frees(filesystems@),
        r is None ==> sum_totals(filesystems@) > u64::MAX || sum_frees(filesystems@) > u64::MAX,
{
    let mut total: u64 = 0;
    let mut free: u64 = 0;
    let mut i: usize = 0;
    while i < filesystems.len()
        invariant
            i <= filesystems@.len(),
            total == sum_totals(filesystems@.take(i as int)),
            free == sum_frees(filesystems@.take(i as int)),
        decreases filesystems@.len() - i,
    {
        let (t, f) = filesystems[i];
        assert(filesystems@.take(i + 1).drop_last() == filesystems@.take(i as int));
        if t > u64::MAX - total {
            proof {
                lemma_sums_grow(filesystems@, i + 1);
            }
            return None;
        }
        if f > u64::MAX - free {
            proof {
                lemma_sums_grow(filesystems@, i + 1);
            }
            return None;
        }
        total = total + t;
        free = free + f;
        i = i + 1;
    }
    assert(filesystems@.take(i as int) == filesystems@);
    Some((total, free))
}

/// The sum of the totals of a list of filesystems.
pub open spec fn sum_totals(fs: Seq<(u64, u64)>) -> int
    decreases fs.len(),
{
    if fs.len() == 0 {
        0
    } else {
        sum_totals(fs.drop_last()) + fs.last().0
    }
}

/// The sum of the free space of a list of filesystems.
pub open spec fn sum_frees(fs: Seq<(u64, u64)>) -> int
    decreases fs.len(),
{
    if fs.len() == 0 {
        0
    } else {
        sum_frees(fs.drop_last()) + fs.last().1
    }
}

proof fn lemma_sums_grow(fs: Seq<(u64, u64)>, n: int)
    requires
        0 <= n <= fs.len(),
    ensures
        sum_totals(fs.take(n)) <= sum_totals(fs),
        sum_frees(fs.take(n)) <= sum_frees(fs),
    decreases fs.len(),
{
    if n < fs.len() {
        assert(fs.drop_last().take(n) == fs.take(n));
        lemma_sums_grow(fs.drop_last(), n);
    } else {
        assert(fs.take(n) == fs);
    }
}

} // verus!
