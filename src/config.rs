//! The daemon's configuration: one entry per named dial slot.
use vstd::prelude::*;
use crate::dial::{self, Backlight, Percent};
use crate::metric::{Metric, spec_dial_name};

verus! {

/// Easing for one of a dial's two animations.
#[derive(Copy, Clone, Debug, PartialEq, Eq)]
pub struct Easing {
    pub period_ms: u64,
    pub step: Percent,
}

/// How a dial's backlight is lit.
#[derive(Copy, Clone, Debug, PartialEq, Eq)]
pub enum BacklightMode {
    /// A single, static color.
    Static(Backlight),
    /// Backlight off.
    Off,
}

/// The color of the default backlight: mid-gray.
pub open spec fn is_mid_gray(b: Backlight) -> bool {
    b.red@ == 50 && b.green@ == 50 && b.blue@ == 50
}

/// The color of an unlit backlight.
pub open spec fn is_dark(b: Backlight) -> bool {
    b.red@ == 0 && b.green@ == 0 && b.blue@ == 0
}

impl Default for BacklightMode {
    fn default() -> (r: BacklightMode)
        ensures
            r matches BacklightMode::Static(b) && is_mid_gray(b),
    {
        BacklightMode::Static(mid_gray())
    }
}

fn mid_gray() -> (r: Backlight)
    ensures
        is_mid_gray(r),
{
    Backlight::new(50, 50, 50).unwrap()
}

impl BacklightMode {
    /// The color this mode pushes to the dial.
    pub open spec fn shows(self, b: Backlight) -> bool {
        match self {
            BacklightMode::Static(c) => b == c,
            BacklightMode::Off => is_dark(b),
        }
    }

    pub fn color(&self) -> (r: Backlight)
        ensures
            self.shows(r),
    {
        match self {
            BacklightMode::Static(c) => *c,
            BacklightMode::Off => Backlight::new(0, 0, 0).unwrap(),
        }
    }
}

/// Backlight color and easing of one dial.
#[derive(Copy, Clone, Debug, PartialEq, Eq)]
pub struct BacklightSettings {
    pub mode: BacklightMode,
    pub easing: Option<Easing>,
}

impl Default for BacklightSettings {
    fn default() -> (r: BacklightSettings)
        ensures
            r.mode matches BacklightMode::Static(b) && is_mid_gray(b),
            r.easing is None,
    {
        BacklightSettings { mode: BacklightMode::default(), easing: None }
    }
}

/// What one dial shows and how.
#[derive(Copy, Clone, Debug, PartialEq, Eq)]
pub struct DialConfig {
    /// The device index of the dial this entry drives.
    pub index: usize,
    pub metric: Metric,
    pub update_interval_ms: u64,
    /// Needle easing, when configured.
    pub easing: Option<Easing>,
    pub backlight: BacklightSettings,
}

/// A dial configuration under its user-chosen name.
#[derive(Clone, Debug)]
pub struct NamedDial {
    pub name: String,
    pub config: DialConfig,
}

/// The configured dials, by name.
#[derive(Clone, Debug)]
pub struct Config {
    pub dials: Vec<NamedDial>,
}

/// What a device reported about itself when a configuration is generated.
#[derive(Copy, Clone, Debug, PartialEq, Eq)]
pub struct DialReport {
    pub index: usize,
    pub easing: dial::Easing,
    pub backlight: Backlight,
}

/// The configuration entries, as a map from name to configuration.
pub open spec fn dials_map(s: Seq<NamedDial>) -> Map<Seq<char>, DialConfig>
    decreases s.len(),
{
    if s.len() == 0 {
        Map::empty()
    } else {
        dials_map(s.drop_last()).insert(s.last().name@, s.last().config)
    }
}

/// No two entries share a name.
pub open spec fn names_unique(s: Seq<NamedDial>) -> bool {
    forall|i: int, j: int| 0 <= i < j < s.len() ==> s[i].name@ != s[j].name@
}

/// The entry generated for a dial that reported `r` and was given `m`.
pub open spec fn generated_entry(m: Metric, r: DialReport) -> DialConfig {
    DialConfig {
        index: r.index,
        metric: m,
        update_interval_ms: 1000,
        easing: Some(Easing { period_ms: r.easing.dial_period_ms, step: r.easing.dial_step }),
        backlight: BacklightSettings {
            mode: BacklightMode::Static(r.backlight),
            easing: Some(
                Easing { period_ms: r.easing.backlight_period_ms, step: r.easing.backlight_step },
            ),
        },
    }
}

/// The map generated from the first `n` metric/report pairs: each metric's
/// dial name maps to its entry, a later pair replacing an earlier one.
pub open spec fn generated_map(metrics: Seq<Metric>, reports: Seq<DialReport>, n: nat) -> Map<
    Seq<char>,
    DialConfig,
>
    decreases n,
{
    if n == 0 {
        Map::empty()
    } else {
        let k = (n - 1) as int;
        generated_map(metrics, reports, (n - 1) as nat).insert(
            spec_dial_name(metrics[k]),
            generated_entry(metrics[k], reports[k]),
        )
    }
}

proof fn lemma_map_update(s: Seq<NamedDial>, j: int, x: NamedDial)
    requires
        names_unique(s),
        0 <= j < s.len(),
        x.name@ == s[j].name@,
    ensures
        dials_map(s.update(j, x)) == dials_map(s).insert(x.name@, x.config),
        names_unique(s.update(j, x)),
    decreases s.len(),
{
    let t = s.update(j, x);
    if j == s.len() - 1 {
        assert(t.drop_last() == s.drop_last());
        assert(dials_map(t) =~= dials_map(s).insert(x.name@, x.config));
    } else {
        assert(t.drop_last() == s.drop_last().update(j, x));
        lemma_map_update(s.drop_last(), j, x);
        assert(dials_map(t) =~= dials_map(s).insert(x.name@, x.config));
    }
}

fn position_of_metric(dials: &Vec<NamedDial>, metric: Metric) -> (r: Option<usize>)
    ensures
        r matches Some(j) ==> j < dials@.len() && dials@[j as int].config.metric == metric,
        r is None ==> forall|k: int| 0 <= k < dials@.len() ==> dials@[k].config.metric != metric,
{
    let mut j: usize = 0;
    while j < dials.len()
        invariant
            j <= dials@.len(),
            forall|k: int| 0 <= k < j ==> dials@[k].config.metric != metric,
        decreases dials@.len() - j,
    {
        if dials[j].config.metric == metric {
            return Some(j);
        }
        j = j + 1;
    }
    None
}

impl Config {
    pub fn new() -> (r: Config)
        ensures
            r.dials@.len() == 0,
    {
        Config { dials: Vec::new() }
    }

    /// Assigns `metrics` in order to the reported dials, pairing the i-th
    /// metric with the i-th report, as far as both lists go. Each entry is
    /// named after its metric, polls every second, and keeps the easing and
    /// backlight that the dial reported; a later entry of the same name
    /// replaces an earlier one.
    pub fn generate(metrics: &Vec<Metric>, reports: &Vec<DialReport>) -> (r: Config)
        ensures
            names_unique(r.dials@),
            dials_map(r.dials@) == generated_map(
                metrics@,
                reports@,
                if metrics@.len() < reports@.len() {
                    metrics@.len()
                } else {
                    reports@.len()
                },
            ),
    {
        let n = if metrics.len() < reports.len() {
            metrics.len()
        } else {
            reports.len()
        };
        let mut dials: Vec<NamedDial> = Vec::new();
        let mut i: usize = 0;
        while i < n
            invariant
                n <= metrics@.len(),
                n <= reports@.len(),
                i <= n,
                names_unique(dials@),
                forall|k: int|
                    0 <= k < dials@.len() ==> #[trigger] dials@[k].name@ == spec_dial_name(
                        dials@[k].config.metric,
                    ),
                dials_map(dials@) == generated_map(metrics@, reports@, i as nat),
            decreases n - i,
        {
            let metric = metrics[i];
            let report = reports[i];
            let entry = DialConfig {
                index: report.index,
                metric,
                update_interval_ms: 1000,
                easing: Some(
                    Easing { period_ms: report.easing.dial_period_ms, step: report.easing.dial_step },
                ),
                backlight: BacklightSettings {
                    mode: BacklightMode::Static(report.backlight),
                    easing: Some(
                        Easing {
                            period_ms: report.easing.backlight_period_ms,
                            step: report.easing.backlight_step,
                        },
                    ),
                },
            };
            let named = NamedDial { name: metric.dial_name(), config: entry };
            let found = position_of_metric(&dials, metric);
            if let Some(j) = found {
                proof {
                    lemma_map_update(dials@, j as int, named);
                }
                dials.set(j, named);
            } else {
                proof {
                    assert forall|k: int| 0 <= k < dials@.len() implies dials@[k].name@
                        != named.name@ by {
                        crate::metric::lemma_dial_names_distinct(dials@[k].config.metric, metric);
                    }
                }
                let ghost before = dials@;
                dials.push(named);
                proof {
                    assert(dials@.drop_last() == before);
                }
            }
            i = i + 1;
        }
        Config { dials }
    }
}

} // verus!
