//! One scrape, from the request to the response.
//!
//! The exporter owns the interfaces, in the order in which they were added.
//! A scrape refreshes each of them in that order and then renders what the
//! gauges hold. Reading the outside world and writing the response is the
//! caller's part: the exporter says what to do next, and the caller reports
//! back when it is done.
//!
//! ```text
//! Received --Request--> Refreshing(0) --Observed--> ... --Observed--> Rendering --Rendered--> Responded
//! ```
//!
//! A refresh that fails for one interface does not stop the scrape: the
//! next interface is refreshed all the same, and the response is sent with
//! the readings at hand.

use crate::device::{gauges_of, refreshed, DeviceStatistics, Observation};
use crate::metric::Metric;
use crate::number::zero;
use crate::registry::RegistrationError;
use vstd::prelude::*;

verus! {

/// How far a scrape has come.
#[derive(Clone, Copy, Debug, PartialEq, Eq, Structural)]
pub enum Phase {
    /// The request has arrived; nothing was done yet.
    Received,
    /// The interfaces before `next` are refreshed; `next` is being observed.
    Refreshing { next: usize },
    /// Every interface is refreshed; the response is being rendered.
    Rendering,
    /// The response is out.
    Responded,
}

/// A scrape in progress.
#[derive(Clone, Copy, Debug, PartialEq, Eq, Structural)]
pub struct Scrape {
    /// How far the scrape has come.
    pub phase: Phase,
    /// Whether a refresh of this scrape has failed, so that some counters
    /// are those of an earlier scrape.
    pub degraded: bool,
}

/// What the caller reports to the exporter.
pub enum Event {
    /// A request has arrived.
    Request,
    /// The interface that was to be observed has been observed.
    Observed(Observation),
    /// The response has been rendered.
    Rendered,
}

/// What the caller is to do next.
#[derive(Clone, Copy, Debug, PartialEq, Eq, Structural)]
pub enum Action {
    /// Observe the interface at this place, and report `Observed`.
    Collect { device: usize },
    /// Render the gauges, and report `Rendered`.
    Render,
    /// Send the response, with success as its status. `degraded` tells
    /// that some counters are those of an earlier scrape.
    Respond { degraded: bool },
    /// The event does not belong to the phase; nothing has changed.
    Ignore,
}

/// The phase that follows the refresh of interface `next` out of `count`,
/// and what is to be done in it.
pub open spec fn after_refresh(next: usize, count: nat) -> (Phase, Action) {
    if next + 1 < count {
        (Phase::Refreshing { next: (next + 1) as usize }, Action::Collect { device: (next + 1) as usize })
    } else {
        (Phase::Rendering, Action::Render)
    }
}

/// One step of a scrape: the interfaces before and after it, the scrape and
/// the event that it starts from, and the scrape and the action that it
/// ends in.
pub open spec fn step_spec(
    before: Seq<DeviceStatistics>,
    after: Seq<DeviceStatistics>,
    scrape: Scrape,
    event: Event,
    next_scrape: Scrape,
    action: Action,
) -> bool {
    &&& after.len() == before.len()
    &&& match (scrape.phase, event) {
        (Phase::Received, Event::Request) => {
            &&& after == before
            &&& next_scrape.degraded == scrape.degraded
            &&& (next_scrape.phase, action) == if before.len() > 0 {
                (Phase::Refreshing { next: 0 }, Action::Collect { device: 0 })
            } else {
                (Phase::Rendering, Action::Render)
            }
        },
        (Phase::Refreshing { next }, Event::Observed(observed)) => if next < before.len() {
            &&& refreshed(before[next as int], after[next as int], observed)
            &&& forall|i: int|
                0 <= i < before.len() && i != next ==> #[trigger] after[i] == before[i]
            &&& next_scrape.degraded == (scrape.degraded || observed.report() is None)
            &&& (next_scrape.phase, action) == after_refresh(next, before.len())
        } else {
            &&& after == before
            &&& next_scrape == scrape
            &&& action == Action::Ignore
        },
        (Phase::Rendering, Event::Rendered) => {
            &&& after == before
            &&& next_scrape == (Scrape { phase: Phase::Responded, degraded: scrape.degraded })
            &&& action == (Action::Respond { degraded: scrape.degraded })
        },
        _ => {
            &&& after == before
            &&& next_scrape == scrape
            &&& action == Action::Ignore
        },
    }
}

/// The interfaces that are exported, in the order in which they were added.
pub struct Exporter {
    devices: Vec<DeviceStatistics>,
}

impl Exporter {
    /// The statistics of the interfaces, in the order in which they were
    /// added.
    pub closed spec fn devices(&self) -> Seq<DeviceStatistics> {
        self.devices@
    }

    /// An exporter without interfaces.
    pub fn new() -> (r: Exporter)
        ensures
            r.devices().len() == 0,
    {
        Exporter { devices: Vec::new() }
    }

    /// Adds an interface behind those that are there, with every reading
    /// at 0, and registers its gauges. Where the registry refuses a gauge,
    /// the interface is not added.
    pub fn add_device(&mut self, registry: &prometheus::Registry, device: &str) -> (r: Result<
        (),
        RegistrationError,
    >)
        ensures
            match r {
                Ok(()) => {
                    &&& final(self).devices().len() == old(self).devices().len() + 1
                    &&& final(self).devices().drop_last() == old(self).devices()
                    &&& final(self).devices().last().device_name() == device@
                    &&& gauges_of(final(self).devices().last().handles(), device@)
                    &&& forall|m: Metric| #[trigger]
                        final(self).devices().last().value(m) == zero()
                },
                Err(_) => final(self).devices() == old(self).devices(),
            },
    {
        match DeviceStatistics::new(registry, device) {
            Ok(d) => {
                self.push_device(d);
                assert(self.devices@.drop_last() =~= old(self).devices@);
                Ok(())
            },
            Err(e) => Err(e),
        }
    }

    /// Puts the statistics of an interface behind those that are there.
    pub fn push_device(&mut self, device: DeviceStatistics)
        ensures
            final(self).devices() == old(self).devices().push(device),
    {
        self.devices.push(device);
    }

    /// The number of interfaces.
    pub fn len(&self) -> (n: usize)
        ensures
            n == self.devices().len(),
    {
        self.devices.len()
    }

    /// The statistics of the interface at a place, if there is one.
    pub fn device(&self, i: usize) -> (r: Option<&DeviceStatistics>)
        ensures
            match r {
                Some(d) => i < self.devices().len() && *d == self.devices()[i as int],
                None => i >= self.devices().len(),
            },
    {
        if i < self.devices.len() {
            Some(&self.devices[i])
        } else {
            None
        }
    }

    /// A scrape whose request has just arrived.
    pub fn received() -> (r: Scrape)
        ensures
            r == (Scrape { phase: Phase::Received, degraded: false }),
    {
        Scrape { phase: Phase::Received, degraded: false }
    }

    /// Takes a scrape one step further.
    ///
    /// - `Request`, on a scrape just received, starts the refresh with the
    ///   first interface, or goes on to rendering where there is none.
    /// - `Observed`, while refreshing, refreshes the interface that was to
    ///   be observed and no other, notes whether that failed, and goes on
    ///   to the next interface, or to rendering after the last.
    /// - `Rendered`, while rendering, ends the scrape with a response.
    /// - Any other event leaves everything as it is.
    pub fn step(&mut self, scrape: Scrape, event: Event) -> (r: (Scrape, Action))
        ensures
            step_spec(old(self).devices(), final(self).devices(), scrape, event, r.0, r.1),
    {
        let count: usize = self.devices.len();
        match (scrape.phase, event) {
            (Phase::Received, Event::Request) => {
                if count > 0 {
                    (
                        Scrape { phase: Phase::Refreshing { next: 0 }, degraded: scrape.degraded },
                        Action::Collect { device: 0 },
                    )
                } else {
                    (Scrape { phase: Phase::Rendering, degraded: scrape.degraded }, Action::Render)
                }
            },
            (Phase::Refreshing { next }, Event::Observed(observed)) => {
                if next < count {
                    let failed = self.devices[next].update(&observed).is_err();
                    let degraded = scrape.degraded || failed;
                    if next + 1 < count {
                        (
                            Scrape { phase: Phase::Refreshing { next: next + 1 }, degraded },
                            Action::Collect { device: next + 1 },
                        )
                    } else {
                        (Scrape { phase: Phase::Rendering, degraded }, Action::Render)
                    }
                } else {
                    (scrape, Action::Ignore)
                }
            },
            (Phase::Rendering, Event::Rendered) => {
                (
                    Scrape { phase: Phase::Responded, degraded: scrape.degraded },
                    Action::Respond { degraded: scrape.degraded },
                )
            },
            _ => (scrape, Action::Ignore),
        }
    }
}

} // verus!
