//! The gauges as the Prometheus client library holds them: creating a gauge
//! and adding it to a registry.

use vstd::prelude::*;

verus! {

/// The registry of the client library, taken as it is: gauges are added to
/// it here, and it is read where the response is encoded.
#[verifier::external_type_specification]
#[verifier::external_body]
pub struct ExRegistry(prometheus::Registry);

/// The error of the client library, taken as it is.
#[verifier::external_type_specification]
#[verifier::external_body]
pub struct ExError(prometheus::Error);

/// A gauge of the client library. The library's gauge type is generic over
/// a trait of its own, so the value is kept behind this handle; `inner` is
/// read where the series is written and encoded.
#[verifier::external_body]
pub struct GaugeHandle {
    pub inner: prometheus::Gauge,
}

/// What a gauge was made with: its name, its help text and the value of
/// its label `device`, in this order. The client library fixes them when it
/// makes the gauge, and every clone of the gauge shares them.
pub uninterp spec fn described(gauge: GaugeHandle) -> (Seq<char>, Seq<char>, Seq<char>);

/// A letter, an underscore or a colon.
pub open spec fn is_name_start(c: char) -> bool {
    let n = c as u32;
    0x41 <= n <= 0x5A || 0x61 <= n <= 0x7A || n == 0x5F || n == 0x3A
}

/// A name that Prometheus accepts for a metric: a letter, an underscore or
/// a colon, followed by any number of those and of digits.
pub open spec fn valid_metric_name(name: Seq<char>) -> bool {
    &&& name.len() > 0
    &&& is_name_start(name[0])
    &&& forall|i: int|
        0 < i < name.len() ==> is_name_start(#[trigger] name[i]) || 0x30 <= name[i] as u32 <= 0x39
}

/// Why an interface's gauges could not be set up.
#[derive(Clone, Copy, Debug, PartialEq, Eq, Structural)]
pub enum RegistrationError {
    /// The registry already holds a gauge of that name for that interface.
    AlreadyRegistered,
    /// The registry refused the gauge for another reason.
    Refused,
}

/// `Gauge::with_opts`, on options made of the name, the help text and one
/// constant label `device`. The library builds the gauge's descriptor from
/// them and fails if the help text is empty or the name is no valid metric
/// name; with the fixed label name and no variable labels nothing else can
/// fail. The gauge that it makes keeps the three texts as they were given.
#[verifier::external_body]
pub(crate) fn create_gauge(
    name: &str,
    help: &str,
    device: &str,
) -> (r: Result<GaugeHandle, prometheus::Error>)
    ensures
        r.is_ok() == (valid_metric_name(name@) && help@.len() > 0),
        r matches Ok(gauge) ==> described(gauge) == (name@, help@, device@),
{
    let opts = prometheus::Opts::new(name, help).const_label("device", device);
    match prometheus::Gauge::with_opts(opts) {
        Ok(inner) => Ok(GaugeHandle { inner }),
        Err(e) => Err(e),
    }
}

/// `Registry::register`, on a clone of the gauge, which shares the gauge's
/// value. Whether the registry takes it depends on what it already holds,
/// so nothing is claimed of the result.
#[verifier::external_body]
pub(crate) fn register_gauge(
    registry: &prometheus::Registry,
    gauge: &GaugeHandle,
) -> (r: Result<(), prometheus::Error>) {
    registry.register(Box::new(gauge.inner.clone()))
}

/// Tells the error `AlreadyReg` of the client library from its other
/// errors.
#[verifier::external_body]
pub(crate) fn is_duplicate(error: &prometheus::Error) -> (r: bool) {
    matches!(error, prometheus::Error::AlreadyReg)
}

/// What a registration came to, from the answer of the registry: accepted
/// where the registry accepted the gauge, and an error of this library where
/// it did not.
pub fn accepted(answer: Result<(), prometheus::Error>) -> (r: Result<(), RegistrationError>)
    ensures
        r is Ok <==> answer is Ok,
{
    match answer {
        Ok(()) => Ok(()),
        Err(e) => Err(registration_error(is_duplicate(&e))),
    }
}

/// The library's error for an error of the registry.
pub fn registration_error(duplicate: bool) -> (r: RegistrationError)
    ensures
        r == if duplicate {
            RegistrationError::AlreadyRegistered
        } else {
            RegistrationError::Refused
        },
{
    if duplicate {
        RegistrationError::AlreadyRegistered
    } else {
        RegistrationError::Refused
    }
}

} // verus!
