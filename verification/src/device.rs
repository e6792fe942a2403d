//! The statistics of one interface: a reading for each gauge, refreshed
//! from what was observed of the interface.
//!
//! A reading is kept as the text of a number. A refresh takes the report of
//! the diagnostic tool, if the tool could be run, and the contents of the
//! settings files that could be read. Counters follow the report; while
//! there is none they keep what they had. Settings follow their files on
//! every refresh.

use crate::metric::{Kind, Metric, METRIC_COUNT};
use crate::number::{is_number, lemma_literals_are_numbers, zero, zero_text};
use crate::registry::{
    accepted, create_gauge, described, register_gauge, GaugeHandle, RegistrationError,
};
use crate::report::{lemma_values_are_numbers, parse_batctl_statistics, report_map, split_lines};
use crate::settings::{
    flag_or_zero, flag_reading, number_or_nan, number_reading, path_of, setting_path,
};
use vstd::prelude::*;

verus! {

/// Why a refresh was incomplete.
#[derive(Clone, Copy, Debug, PartialEq, Eq, Structural)]
pub enum UpdateError {
    /// The diagnostic tool gave no report; the counters kept their values.
    SourceUnavailable,
}

/// The characters of a text that may be missing.
pub open spec fn text_of(content: Option<String>) -> Option<Seq<char>> {
    match content {
        Some(s) => Some(s@),
        None => None,
    }
}

/// The value of a counter after a report: what the report holds under the
/// counter's key, or 0 where it holds nothing.
pub open spec fn counter_value(stats: Map<Seq<char>, Seq<char>>, key: Seq<char>) -> Seq<char> {
    if stats.contains_key(key) {
        stats[key]
    } else {
        zero()
    }
}

/// The reading of gauge `m` after the first half of a refresh. A counter
/// takes its value from the report. With no report it keeps the reading it
/// had, and so does every gauge that is no counter.
pub open spec fn after_report(before: Seq<char>, m: Metric, report: Option<Seq<char>>) -> Seq<
    char,
> {
    match report {
        Some(text) => if m.kind_of() == Kind::Counter {
            counter_value(report_map(text), m.source_of())
        } else {
            before
        },
        None => before,
    }
}

/// The reading of gauge `m` after the second half of a refresh. A switch
/// and a numeric setting follow the content of their file; a counter keeps
/// its reading.
pub open spec fn after_settings(before: Seq<char>, m: Metric, file: Option<Seq<char>>) -> Seq<
    char,
> {
    match m.kind_of() {
        Kind::Counter => before,
        Kind::Flag => flag_or_zero(file),
        Kind::Number => number_or_nan(file),
    }
}

/// `after` is `before` refreshed with what was observed: the same
/// interface and the same gauges, each reading brought up to date.
pub open spec fn refreshed(
    before: DeviceStatistics,
    after: DeviceStatistics,
    observed: Observation,
) -> bool {
    &&& after.device_name() == before.device_name()
    &&& after.handles() == before.handles()
    &&& forall|m: Metric| #[trigger]
        after.value(m) == after_settings(
            after_report(before.value(m), m, observed.report()),
            m,
            observed.file(m),
        )
}

/// `gauge` is the gauge of `m` for the interface `device`: it was made with
/// the name and the help text of `m`, and with the interface as its label.
pub open spec fn belongs_to(gauge: GaugeHandle, m: Metric, device: Seq<char>) -> bool {
    described(gauge) == (m.name_of(), m.help_of(), device)
}

/// `gauges` are the gauges of the interface `device`, one for each entry
/// of the list and in the order of the list.
pub open spec fn gauges_of(gauges: Seq<GaugeHandle>, device: Seq<char>) -> bool {
    &&& gauges.len() == METRIC_COUNT
    &&& forall|m: Metric| #![trigger m.index()] belongs_to(gauges[m.index()], m, device)
}

/// Creates the gauge of the client library for gauge `m` of an interface.
/// Every name of the list is a valid metric name and every help text has
/// content, so the gauge is always made.
pub fn new_gauge(m: Metric, device: &str) -> (r: Result<GaugeHandle, RegistrationError>)
    ensures
        r matches Ok(gauge) && belongs_to(gauge, m, device@),
{
    let help = m.description();
    proof {
        m.lemma_well_named();
    }
    match create_gauge(m.name(), help.as_str(), device) {
        Ok(gauge) => Ok(gauge),
        Err(_) => Err(RegistrationError::Refused),
    }
}

/// What was observed of one interface for one refresh: the report of the
/// diagnostic tool, unless the tool could not be run, and the content of
/// each settings file that could be read.
pub struct Observation {
    report: Option<String>,
    files: Vec<Option<String>>,
}

impl Observation {
    #[verifier::type_invariant]
    spec fn well_formed(self) -> bool {
        self.files@.len() == METRIC_COUNT
    }

    /// The report, if there is one.
    pub closed spec fn report(&self) -> Option<Seq<char>> {
        text_of(self.report)
    }

    /// The content of the settings file behind gauge `m`, if it was read.
    pub closed spec fn file(&self, m: Metric) -> Option<Seq<char>> {
        text_of(self.files@[m.index()])
    }

    /// An observation of nothing: no report, and no file read.
    pub fn new() -> (r: Observation)
        ensures
            r.report() is None,
            forall|m: Metric| #[trigger] r.file(m) is None,
    {
        let mut files: Vec<Option<String>> = Vec::new();
        let mut i: usize = 0;
        while i < METRIC_COUNT
            invariant
                i <= METRIC_COUNT,
                files@.len() == i,
                forall|j: int| 0 <= j < i ==> #[trigger] files@[j] is None,
            decreases METRIC_COUNT - i,
        {
            files.push(None);
            i = i + 1;
        }
        Observation { report: None, files }
    }

    /// Records the report of the diagnostic tool.
    pub fn set_report(&mut self, text: String)
        ensures
            final(self).report() == Some(text@),
            forall|m: Metric| #[trigger] final(self).file(m) == old(self).file(m),
    {
        proof {
            use_type_invariant(&*self);
        }
        self.report = Some(text);
    }

    /// Records the content of the settings file behind gauge `m`.
    pub fn set_file(&mut self, m: Metric, content: String)
        ensures
            final(self).report() == old(self).report(),
            final(self).file(m) == Some(content@),
            forall|other: Metric| other != m ==> #[trigger] final(self).file(other) == old(self).file(other),
    {
        proof {
            use_type_invariant(&*self);
        }
        let i: usize = m.position();
        let mut files: Vec<Option<String>> = Vec::new();
        let mut j: usize = 0;
        while j < METRIC_COUNT
            invariant
                j <= METRIC_COUNT,
                i == m.index(),
                self.files@.len() == METRIC_COUNT,
                files@.len() == j,
                forall|k: int|
                    0 <= k < j ==> text_of(#[trigger] files@[k]) == if k == i {
                        Some(content@)
                    } else {
                        text_of(self.files@[k])
                    },
            decreases METRIC_COUNT - j,
        {
            let slot = if j == i {
                Some(content.clone())
            } else {
                match &self.files[j] {
                    Some(s) => Some(s.clone()),
                    None => None,
                }
            };
            files.push(slot);
            j = j + 1;
        }
        self.files = files;
        proof {
            assert forall|other: Metric| other != m implies #[trigger] self.file(other) == old(
                self,
            ).file(other) by {
                if other.index() == m.index() {
                    other.lemma_index_is_one_to_one(m);
                }
            }
        }
    }

    /// The report, if there is one.
    pub fn report_text(&self) -> (r: Option<&str>)
        ensures
            match r {
                Some(s) => self.report() == Some(s@),
                None => self.report() is None,
            },
    {
        match &self.report {
            Some(s) => Some(s.as_str()),
            None => None,
        }
    }

    /// The content of the settings file behind gauge `m`, if it was read.
    pub fn file_content(&self, m: Metric) -> (r: Option<&str>)
        ensures
            match r {
                Some(s) => self.file(m) == Some(s@),
                None => self.file(m) is None,
            },
    {
        proof {
            use_type_invariant(self);
        }
        match &self.files[m.position()] {
            Some(s) => Some(s.as_str()),
            None => None,
        }
    }
}

/// The statistics of one interface.
pub struct DeviceStatistics {
    device: String,
    values: Vec<String>,
    gauges: Vec<GaugeHandle>,
}

impl DeviceStatistics {
    #[verifier::type_invariant]
    spec fn well_formed(self) -> bool {
        &&& self.values@.len() == METRIC_COUNT
        &&& self.gauges@.len() == METRIC_COUNT
        &&& forall|i: int| 0 <= i < METRIC_COUNT ==> is_number(#[trigger] self.values@[i]@)
    }

    /// The name of the interface.
    pub closed spec fn device_name(&self) -> Seq<char> {
        self.device@
    }

    /// The reading of gauge `m`.
    pub closed spec fn value(&self, m: Metric) -> Seq<char> {
        self.values@[m.index()]@
    }

    /// The gauges as the client library holds them, in the order of the
    /// list of gauges.
    pub closed spec fn handles(&self) -> Seq<GaugeHandle> {
        self.gauges@
    }

    /// Creates and registers a gauge for each entry of the list, labelled
    /// with the interface's name, in the order of the list.
    ///
    /// The registry decides whether it takes a gauge. The first gauge that
    /// it refuses ends the work; those registered before it stay
    /// registered.
    pub fn register_all(registry: &prometheus::Registry, device: &str) -> (r: Result<
        Vec<GaugeHandle>,
        RegistrationError,
    >)
        ensures
            r matches Ok(gauges) ==> gauges_of(gauges@, device@),
    {
        let mut gauges: Vec<GaugeHandle> = Vec::new();
        let mut i: usize = 0;
        while i < METRIC_COUNT
            invariant
                i <= METRIC_COUNT,
                gauges@.len() == i,
                forall|m: Metric|
                    #![trigger m.index()]
                    m.index() < i ==> belongs_to(gauges@[m.index()], m, device@),
            decreases METRIC_COUNT - i,
        {
            let m = match Metric::from_index(i) {
                Some(m) => m,
                None => {
                    return Err(RegistrationError::Refused);
                },
            };
            let gauge = match new_gauge(m, device) {
                Ok(gauge) => gauge,
                Err(e) => {
                    return Err(e);
                },
            };
            match accepted(register_gauge(registry, &gauge)) {
                Ok(()) => {},
                Err(e) => {
                    return Err(e);
                },
            }
            proof {
                assert forall|other: Metric| other.index() == i implies belongs_to(
                    gauge,
                    other,
                    device@,
                ) by {
                    other.lemma_index_is_one_to_one(m);
                }
            }
            gauges.push(gauge);
            i = i + 1;
        }
        Ok(gauges)
    }

    /// The statistics of an interface whose gauges are at hand, with every
    /// reading at 0. There must be one gauge for each entry of the list.
    pub fn with_gauges(device: &str, gauges: Vec<GaugeHandle>) -> (r: Option<DeviceStatistics>)
        ensures
            match r {
                Some(d) => {
                    &&& gauges@.len() == METRIC_COUNT
                    &&& d.device_name() == device@
                    &&& d.handles() == gauges@
                    &&& forall|m: Metric| #[trigger] d.value(m) == zero()
                },
                None => gauges@.len() != METRIC_COUNT,
            },
    {
        if gauges.len() != METRIC_COUNT {
            return None;
        }
        let mut values: Vec<String> = Vec::new();
        let mut i: usize = 0;
        while i < METRIC_COUNT
            invariant
                i <= METRIC_COUNT,
                values@.len() == i,
                forall|j: int| 0 <= j < i ==> (#[trigger] values@[j])@ == zero(),
            decreases METRIC_COUNT - i,
        {
            values.push(zero_text());
            i = i + 1;
        }
        proof {
            lemma_literals_are_numbers();
        }
        Some(DeviceStatistics { device: device.to_owned(), values, gauges })
    }

    /// Sets up the statistics of an interface: registers a gauge for each
    /// entry of the list and starts every reading at 0. Fails where the
    /// registry refuses a gauge.
    pub fn new(registry: &prometheus::Registry, device: &str) -> (r: Result<
        DeviceStatistics,
        RegistrationError,
    >)
        ensures
            r matches Ok(d) ==> {
                &&& d.device_name() == device@
                &&& gauges_of(d.handles(), device@)
                &&& forall|m: Metric| #[trigger] d.value(m) == zero()
            },
    {
        match DeviceStatistics::register_all(registry, device) {
            Ok(gauges) => match DeviceStatistics::with_gauges(device, gauges) {
                Some(d) => Ok(d),
                None => Err(RegistrationError::Refused),
            },
            Err(e) => Err(e),
        }
    }

    /// The name of the interface.
    pub fn device(&self) -> (r: &str)
        ensures
            r@ == self.device_name(),
    {
        self.device.as_str()
    }

    /// The reading of gauge `m`: the text of a number.
    pub fn get(&self, m: Metric) -> (r: &str)
        ensures
            r@ == self.value(m),
            is_number(r@),
    {
        proof {
            use_type_invariant(self);
        }
        self.values[m.position()].as_str()
    }

    /// The gauge of the client library that carries the readings of `m`.
    pub fn gauge(&self, m: Metric) -> (r: &GaugeHandle)
        ensures
            *r == self.handles()[m.index()],
    {
        proof {
            use_type_invariant(self);
        }
        &self.gauges[m.position()]
    }

    /// The path of the settings file behind gauge `m`.
    pub fn path(&self, m: Metric) -> (r: String)
        ensures
            r@ == path_of(self.device_name(), m.source_of()),
    {
        setting_path(self.device.as_str(), m.source())
    }

    /// Refreshes the counters from the report of the diagnostic tool. A
    /// counter that the report does not name reads as 0. Without a report
    /// every reading stays as it is and the refresh fails.
    pub fn update_batctl_statistics(&mut self, report: Option<&str>) -> (r: Result<
        (),
        UpdateError,
    >)
        ensures
            forall|m: Metric| #[trigger]
                final(self).value(m) == after_report(
                    old(self).value(m),
                    m,
                    match report {
                        Some(text) => Some(text@),
                        None => None,
                    },
                ),
            final(self).device_name() == old(self).device_name(),
            final(self).handles() == old(self).handles(),
            r == if report is Some {
                Ok::<(), UpdateError>(())
            } else {
                Err::<(), UpdateError>(UpdateError::SourceUnavailable)
            },
    {
        let text = match report {
            Some(text) => text,
            None => {
                return Err(UpdateError::SourceUnavailable);
            },
        };
        let stats = parse_batctl_statistics(text);
        proof {
            use_type_invariant(&*self);
            lemma_values_are_numbers(Map::empty(), split_lines(text@));
        }
        let mut fresh: Vec<String> = Vec::new();
        let mut i: usize = 0;
        while i < METRIC_COUNT
            invariant
                i <= METRIC_COUNT,
                stats@ == report_map(text@),
                forall|k: Seq<char>|
                    #![trigger stats@.contains_key(k)]
                    stats@.contains_key(k) ==> is_number(stats@[k]),
                self.values@.len() == METRIC_COUNT,
                forall|j: int| 0 <= j < METRIC_COUNT ==> is_number(#[trigger] self.values@[j]@),
                fresh@.len() == i,
                forall|j: int| 0 <= j < i ==> is_number(#[trigger] fresh@[j]@),
                forall|m: Metric|
                    #![trigger m.index()]
                    m.index() < i ==> fresh@[m.index()]@ == after_report(
                        self.value(m),
                        m,
                        Some(text@),
                    ),
            decreases METRIC_COUNT - i,
        {
            let reading = match Metric::from_index(i) {
                Some(m) => {
                    proof {
                        assert forall|other: Metric| other.index() == i implies other == m by {
                            other.lemma_index_is_one_to_one(m);
                        }
                    }
                    if m.kind() == Kind::Counter {
                        match stats.get(m.source()) {
                            Some(v) => v.clone(),
                            None => zero_text(),
                        }
                    } else {
                        self.values[i].clone()
                    }
                },
                None => self.values[i].clone(),
            };
            fresh.push(reading);
            i = i + 1;
        }
        self.values = fresh;
        Ok(())
    }

    /// Refreshes the settings from the contents of their files. A switch
    /// whose file was not read reads as 0; a numeric setting whose file was
    /// not read, or holds no number, reads as not-a-number.
    pub fn update_sysfs_statistics(&mut self, observed: &Observation)
        ensures
            forall|m: Metric| #[trigger]
                final(self).value(m) == after_settings(old(self).value(m), m, observed.file(m)),
            final(self).device_name() == old(self).device_name(),
            final(self).handles() == old(self).handles(),
    {
        proof {
            use_type_invariant(&*self);
        }
        let mut fresh: Vec<String> = Vec::new();
        let mut i: usize = 0;
        while i < METRIC_COUNT
            invariant
                i <= METRIC_COUNT,
                self.values@.len() == METRIC_COUNT,
                forall|j: int| 0 <= j < METRIC_COUNT ==> is_number(#[trigger] self.values@[j]@),
                fresh@.len() == i,
                forall|j: int| 0 <= j < i ==> is_number(#[trigger] fresh@[j]@),
                forall|m: Metric|
                    #![trigger m.index()]
                    m.index() < i ==> fresh@[m.index()]@ == after_settings(
                        self.value(m),
                        m,
                        observed.file(m),
                    ),
            decreases METRIC_COUNT - i,
        {
            let reading = match Metric::from_index(i) {
                Some(m) => {
                    proof {
                        assert forall|other: Metric| other.index() == i implies other == m by {
                            other.lemma_index_is_one_to_one(m);
                        }
                    }
                    match m.kind() {
                        Kind::Counter => self.values[i].clone(),
                        Kind::Flag => flag_reading(observed.file_content(m)),
                        Kind::Number => number_reading(observed.file_content(m)),
                    }
                },
                None => self.values[i].clone(),
            };
            fresh.push(reading);
            i = i + 1;
        }
        self.values = fresh;
    }

    /// Refreshes every gauge: first the counters from the report, then the
    /// settings from their files. The settings are refreshed whether or not
    /// there was a report; without one the counters keep their readings
    /// and the refresh is reported as failed.
    pub fn update(&mut self, observed: &Observation) -> (r: Result<(), UpdateError>)
        ensures
            forall|m: Metric| #[trigger]
                final(self).value(m) == after_settings(
                    after_report(old(self).value(m), m, observed.report()),
                    m,
                    observed.file(m),
                ),
            final(self).device_name() == old(self).device_name(),
            final(self).handles() == old(self).handles(),
            r == if observed.report() is Some {
                Ok::<(), UpdateError>(())
            } else {
                Err::<(), UpdateError>(UpdateError::SourceUnavailable)
            },
    {
        let traffic = self.update_batctl_statistics(observed.report_text());
        self.update_sysfs_statistics(observed);
        traffic
    }
}

} // verus!
