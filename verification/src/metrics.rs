//! Metrics of the private memory server: which measurements each event
//! records, and the instruments that receive them.
//!
//! When adding new metrics, keep the API such that the usage site needs
//! just a line or two of code to record the metrics correctly.

use opentelemetry::metrics::{Counter, Histogram, Meter, ObservableGauge, Unit};
use opentelemetry::KeyValue;
use vstd::prelude::*;

verus! {

#[verifier::external_type_specification]
#[verifier::external_body]
#[verifier::reject_recursive_types(T)]
pub struct ExCounter<T>(Counter<T>);

#[verifier::external_type_specification]
#[verifier::external_body]
#[verifier::reject_recursive_types(T)]
pub struct ExHistogram<T>(Histogram<T>);

#[verifier::external_type_specification]
#[verifier::external_body]
#[verifier::reject_recursive_types(T)]
pub struct ExObservableGauge<T>(ObservableGauge<T>);

#[verifier::external_type_specification]
#[verifier::external_body]
pub struct ExMeter(Meter);

/// An attribute of a recorded value: its key and its value.
pub type Attribute = (Seq<char>, Seq<char>);

/// A value handed to an instrument, with its attribute if any.
pub type HandOff = (u64, Option<Attribute>);

/// An OpenTelemetry `u64` counter, with the name and description it was
/// created with and the values handed to it, in order.
pub struct U64Counter {
    inner: Counter<u64>,
    name: Ghost<Seq<char>>,
    description: Ghost<Seq<char>>,
    handed: Ghost<Seq<HandOff>>,
}

/// An OpenTelemetry `u64` histogram, with the name, description and unit it
/// was created with and the values handed to it, in order.
pub struct U64Histogram {
    inner: Histogram<u64>,
    name: Ghost<Seq<char>>,
    description: Ghost<Seq<char>>,
    unit: Ghost<Seq<char>>,
    handed: Ghost<Seq<HandOff>>,
}

/// An OpenTelemetry `u64` observable gauge, with the name and description it
/// was created with and the values handed to it, in order.
pub struct U64ObservableGauge {
    inner: ObservableGauge<u64>,
    name: Ghost<Seq<char>>,
    description: Ghost<Seq<char>>,
    handed: Ghost<Seq<HandOff>>,
}

impl U64Counter {
    pub closed spec fn name(&self) -> Seq<char> {
        self.name@
    }

    pub closed spec fn description(&self) -> Seq<char> {
        self.description@
    }

    pub closed spec fn handed(&self) -> Seq<HandOff> {
        self.handed@
    }
}

impl U64Histogram {
    pub closed spec fn name(&self) -> Seq<char> {
        self.name@
    }

    pub closed spec fn description(&self) -> Seq<char> {
        self.description@
    }

    pub closed spec fn unit(&self) -> Seq<char> {
        self.unit@
    }

    pub closed spec fn handed(&self) -> Seq<HandOff> {
        self.handed@
    }
}

impl U64ObservableGauge {
    pub closed spec fn name(&self) -> Seq<char> {
        self.name@
    }

    pub closed spec fn description(&self) -> Seq<char> {
        self.description@
    }

    pub closed spec fn handed(&self) -> Seq<HandOff> {
        self.handed@
    }
}

/// Calls `Meter::u64_counter`, then `with_description` and `try_init` on
/// the builder. Trusted to return the counter so created, under the given
/// name and description and with nothing handed to it yet, or `None` where
/// the meter's provider cannot create it.
#[verifier::external_body]
fn new_u64_counter(meter: &Meter, name: &'static str, description: &'static str) -> (res: Option<
    U64Counter,
>)
    ensures
        res matches Some(c) ==> c.name() == name@ && c.description() == description@
            && c.handed() == Seq::<HandOff>::empty(),
{
    match meter.u64_counter(name).with_description(description).try_init() {
        Ok(inner) => Some(
            U64Counter {
                inner,
                name: Ghost(name@),
                description: Ghost(description@),
                handed: Ghost(Seq::empty()),
            },
        ),
        Err(_) => None,
    }
}

/// Calls `Meter::u64_histogram`, then `with_description`, `with_unit` (with
/// `Unit::new`) and `try_init` on the builder. Trusted to return the
/// histogram so created, under the given name, description and unit and
/// with nothing handed to it yet, or `None` where the meter's provider
/// cannot create it.
#[verifier::external_body]
fn new_u64_histogram(
    meter: &Meter,
    name: &'static str,
    description: &'static str,
    unit: &'static str,
) -> (res: Option<U64Histogram>)
    ensures
        res matches Some(h) ==> h.name() == name@ && h.description() == description@ && h.unit()
            == unit@ && h.handed() == Seq::<HandOff>::empty(),
{
    match meter.u64_histogram(name).with_description(description).with_unit(
        Unit::new(unit),
    ).try_init() {
        Ok(inner) => Some(
            U64Histogram {
                inner,
                name: Ghost(name@),
                description: Ghost(description@),
                unit: Ghost(unit@),
                handed: Ghost(Seq::empty()),
            },
        ),
        Err(_) => None,
    }
}

/// Calls `Meter::u64_observable_gauge`, then `with_description` and
/// `try_init` on the builder. Trusted to return the gauge so created, under
/// the given name and description and with nothing handed to it yet, or
/// `None` where the meter's provider cannot create it.
#[verifier::external_body]
fn new_u64_observable_gauge(
    meter: &Meter,
    name: &'static str,
    description: &'static str,
) -> (res: Option<U64ObservableGauge>)
    ensures
        res matches Some(g) ==> g.name() == name@ && g.description() == description@
            && g.handed() == Seq::<HandOff>::empty(),
{
    match meter.u64_observable_gauge(name).with_description(description).try_init() {
        Ok(inner) => Some(
            U64ObservableGauge {
                inner,
                name: Ghost(name@),
                description: Ghost(description@),
                handed: Ghost(Seq::empty()),
            },
        ),
        Err(_) => None,
    }
}

/// Calls `Counter::add` with no attributes. Trusted to hand the value to
/// the counter: the record of hand-offs grows by it.
#[verifier::external_body]
fn counter_add(counter: &mut U64Counter, value: u64)
    ensures
        final(counter).handed() == old(counter).handed().push((value, None::<Attribute>)),
        final(counter).name() == old(counter).name(),
        final(counter).description() == old(counter).description(),
{
    counter.inner.add(value, &[])
}

/// Calls `Counter::add` with one attribute made by `KeyValue::new(key,
/// value)`. Trusted to hand the value and attribute to the counter: the
/// record of hand-offs grows by them.
#[verifier::external_body]
fn counter_add_with(counter: &mut U64Counter, value: u64, key: &'static str, attribute: String)
    ensures
        final(counter).handed() == old(counter).handed().push((value, Some((key@, attribute@)))),
        final(counter).name() == old(counter).name(),
        final(counter).description() == old(counter).description(),
{
    counter.inner.add(value, &[KeyValue::new(key, attribute)])
}

/// Calls `Histogram::record` with no attributes. Trusted to hand the value
/// to the histogram: the record of hand-offs grows by it.
#[verifier::external_body]
fn histogram_record(histogram: &mut U64Histogram, value: u64)
    ensures
        final(histogram).handed() == old(histogram).handed().push((value, None::<Attribute>)),
        final(histogram).name() == old(histogram).name(),
        final(histogram).description() == old(histogram).description(),
        final(histogram).unit() == old(histogram).unit(),
{
    histogram.inner.record(value, &[])
}

/// Calls `Histogram::record` with one attribute made by `KeyValue::new(key,
/// value)`. Trusted to hand the value and attribute to the histogram: the
/// record of hand-offs grows by them.
#[verifier::external_body]
fn histogram_record_with(
    histogram: &mut U64Histogram,
    value: u64,
    key: &'static str,
    attribute: String,
)
    ensures
        final(histogram).handed() == old(histogram).handed().push(
            (value, Some((key@, attribute@))),
        ),
        final(histogram).name() == old(histogram).name(),
        final(histogram).description() == old(histogram).description(),
        final(histogram).unit() == old(histogram).unit(),
{
    histogram.inner.record(value, &[KeyValue::new(key, attribute)])
}

/// Calls `ObservableGauge::observe` with no attributes. Trusted to hand the
/// value to the gauge: the record of hand-offs grows by it. (Outside a
/// collection callback the provider may drop the observation.)
#[verifier::external_body]
fn gauge_observe(gauge: &mut U64ObservableGauge, value: u64)
    ensures
        final(gauge).handed() == old(gauge).handed().push((value, None::<Attribute>)),
        final(gauge).name() == old(gauge).name(),
        final(gauge).description() == old(gauge).description(),
{
    gauge.inner.observe(value, &[])
}

/// Calls `ObservableGauge::observe` with one attribute made by
/// `KeyValue::new(key, value)`. Trusted to hand the value and attribute to
/// the gauge: the record of hand-offs grows by them.
#[verifier::external_body]
fn gauge_observe_with(gauge: &mut U64ObservableGauge, value: u64, key: &'static str, attribute: String)
    ensures
        final(gauge).handed() == old(gauge).handed().push((value, Some((key@, attribute@)))),
        final(gauge).name() == old(gauge).name(),
        final(gauge).description() == old(gauge).description(),
{
    gauge.inner.observe(value, &[KeyValue::new(key, attribute)])
}

/// The kinds of sealed memory requests that the server handles.
#[derive(Debug, Clone, Copy, PartialEq, Eq, Structural)]
pub enum SealedMemoryRequest {
    UserRegistrationRequest,
    KeySyncRequest,
    AddMemoryRequest,
    GetMemoriesRequest,
    ResetMemoryRequest,
    GetMemoryByIdRequest,
    SearchMemoryRequest,
    DeleteMemoryRequest,
}

/// The protocol-buffer message name of each kind of request.
pub open spec fn request_message_name(request: SealedMemoryRequest) -> Seq<char> {
    match request {
        SealedMemoryRequest::UserRegistrationRequest => "UserRegistrationRequest"@,
        SealedMemoryRequest::KeySyncRequest => "KeySyncRequest"@,
        SealedMemoryRequest::AddMemoryRequest => "AddMemoryRequest"@,
        SealedMemoryRequest::GetMemoriesRequest => "GetMemoriesRequest"@,
        SealedMemoryRequest::ResetMemoryRequest => "ResetMemoryRequest"@,
        SealedMemoryRequest::GetMemoryByIdRequest => "GetMemoryByIdRequest"@,
        SealedMemoryRequest::SearchMemoryRequest => "SearchMemoryRequest"@,
        SealedMemoryRequest::DeleteMemoryRequest => "DeleteMemoryRequest"@,
    }
}

/// The message name of a request, as its metric label.
fn get_name(request: &SealedMemoryRequest) -> (res: String)
    ensures
        res@ == request_message_name(*request),
{
    let name = match request {
        SealedMemoryRequest::UserRegistrationRequest => "UserRegistrationRequest",
        SealedMemoryRequest::KeySyncRequest => "KeySyncRequest",
        SealedMemoryRequest::AddMemoryRequest => "AddMemoryRequest",
        SealedMemoryRequest::GetMemoriesRequest => "GetMemoriesRequest",
        SealedMemoryRequest::ResetMemoryRequest => "ResetMemoryRequest",
        SealedMemoryRequest::GetMemoryByIdRequest => "GetMemoryByIdRequest",
        SealedMemoryRequest::SearchMemoryRequest => "SearchMemoryRequest",
        SealedMemoryRequest::DeleteMemoryRequest => "DeleteMemoryRequest",
    };
    name.to_owned()
}

/// The possible request metric names; wrapped by [`RequestMetricName`],
/// whose constructors are the only way to make one.
#[derive(Debug, Clone)]
enum RequestMetricNameInner {
    SealedMemoryRequest(String),
    Handshake,
    Total,
}

/// The name under which a request is counted.
#[derive(Debug, Clone)]
pub struct RequestMetricName(RequestMetricNameInner);

impl View for RequestMetricName {
    /// The label value that the name records.
    type V = Seq<char>;

    closed spec fn view(&self) -> Seq<char> {
        match self.0 {
            RequestMetricNameInner::SealedMemoryRequest(name) => name@,
            RequestMetricNameInner::Handshake => "Handshake"@,
            RequestMetricNameInner::Total => "total"@,
        }
    }
}

impl RequestMetricName {
    /// The name that counts all requests together.
    pub fn total() -> (res: RequestMetricName)
        ensures
            res@ == "total"@,
    {
        RequestMetricName(RequestMetricNameInner::Total)
    }

    /// The name of handshake requests.
    pub fn handshake() -> (res: RequestMetricName)
        ensures
            res@ == "Handshake"@,
    {
        RequestMetricName(RequestMetricNameInner::Handshake)
    }

    /// The name of a sealed memory request: its message name.
    pub fn new_sealed_memory_request(variant: &SealedMemoryRequest) -> (res: RequestMetricName)
        ensures
            res@ == request_message_name(*variant),
    {
        RequestMetricName(RequestMetricNameInner::SealedMemoryRequest(get_name(variant)))
    }

    /// The label value that the name records.
    pub fn to_value(&self) -> (res: String)
        ensures
            res@ == self@,
    {
        match &self.0 {
            RequestMetricNameInner::SealedMemoryRequest(name) => name.clone(),
            RequestMetricNameInner::Handshake => "Handshake".to_owned(),
            RequestMetricNameInner::Total => "total".to_owned(),
        }
    }
}

/// The instruments of the server.
#[derive(Debug, Clone, Copy, PartialEq, Eq, Structural)]
pub enum Instrument {
    /// Counter of RPCs received.
    RpcCount,
    /// Counter of RPCs that failed.
    RpcFailureCount,
    /// Histogram of RPC latencies, in ms.
    RpcLatency,
    /// Histogram of database sizes, in bytes.
    DbSize,
    /// Histogram of database initialization latencies, in ms.
    DbInitLatency,
    /// Histogram of database persist latencies, in ms.
    DbPersistLatency,
    /// Counter of retries when connecting to the database.
    DbConnectRetries,
    /// Counter of failures when persisting the database.
    DbPersistFailures,
    /// Gauge of the size of the database persist queue.
    DbPersistQueueSize,
}

/// One value recorded on one instrument, with its `request_type` label if
/// any.
#[derive(Debug, Clone)]
pub struct Measurement {
    pub instrument: Instrument,
    pub value: u64,
    pub request_type: Option<String>,
}

/// A measurement by its instrument, value and label.
pub type MeasurementView = (Instrument, u64, Option<Seq<char>>);

impl View for Measurement {
    type V = MeasurementView;

    open spec fn view(&self) -> MeasurementView {
        (
            self.instrument,
            self.value,
            match self.request_type {
                Some(t) => Some(t@),
                None => None,
            },
        )
    }
}

/// The events that the server records.
#[derive(Debug, Clone)]
pub enum MetricEvent {
    /// The instruments were created; their series are started.
    Registration,
    /// A request of the given name was received, whether it fails or not.
    Request(RequestMetricName),
    /// A request of the given name failed.
    Failure(RequestMetricName),
    /// A request of the given name took this many ms.
    Latency(u64, RequestMetricName),
    /// The database was saved at this speed.
    DbSaveSpeed(u64),
    /// The database was loaded at this speed.
    DbLoadSpeed(u64),
    /// The database has this size, in bytes.
    DbSize(u64),
    /// Initializing the database took this many ms.
    DbInitLatency(u64),
    /// Persisting the database took this many ms.
    DbPersistLatency(u64),
    /// Connecting to the database was retried.
    DbConnectRetry,
    /// Persisting the database failed.
    DbPersistFailure,
    /// The database persist queue holds this many items.
    DbPersistQueueSize(u64),
}

/// A duration or speed rounded up to at least 1.
pub open spec fn at_least_one(value: u64) -> u64 {
    if value < 1 {
        1
    } else {
        value
    }
}

/// The measurements that an event records, in order.
pub open spec fn event_measurements(event: MetricEvent) -> Seq<MeasurementView> {
    match event {
        MetricEvent::Registration => seq![
            (Instrument::RpcCount, 0u64, Some("total"@)),
            (Instrument::RpcFailureCount, 0u64, Some("total"@)),
            (Instrument::RpcLatency, 1u64, Some("test"@)),
            (Instrument::DbSize, 1u64, None),
            (Instrument::DbInitLatency, 1u64, None),
            (Instrument::DbPersistLatency, 1u64, None),
            (Instrument::DbConnectRetries, 0u64, None),
            (Instrument::DbPersistFailures, 0u64, None),
            (Instrument::DbPersistQueueSize, 0u64, None),
        ],
        MetricEvent::Request(name) => seq![(Instrument::RpcCount, 1u64, Some(name@))],
        MetricEvent::Failure(name) => seq![(Instrument::RpcFailureCount, 1u64, Some(name@))],
        MetricEvent::Latency(ms, name) => seq![
            (Instrument::RpcLatency, at_least_one(ms), Some(name@)),
            (Instrument::RpcLatency, at_least_one(ms), Some("total"@)),
        ],
        MetricEvent::DbSaveSpeed(speed) => seq![
            (Instrument::RpcLatency, at_least_one(speed), Some("db_save_kb_per_ms"@)),
        ],
        MetricEvent::DbLoadSpeed(speed) => seq![
            (Instrument::RpcLatency, at_least_one(speed), Some("db_save_kb_per_ms"@)),
        ],
        MetricEvent::DbSize(size) => seq![(Instrument::DbSize, size, None)],
        MetricEvent::DbInitLatency(ms) => seq![(Instrument::DbInitLatency, ms, None)],
        MetricEvent::DbPersistLatency(ms) => seq![(Instrument::DbPersistLatency, ms, None)],
        MetricEvent::DbConnectRetry => seq![(Instrument::DbConnectRetries, 1u64, None)],
        MetricEvent::DbPersistFailure => seq![(Instrument::DbPersistFailures, 1u64, None)],
        MetricEvent::DbPersistQueueSize(n) => seq![(Instrument::DbPersistQueueSize, n, None)],
    }
}

/// A latency is recorded twice, under the request's name and under
/// "total", with the same value: the elapsed time rounded up to 1 ms.
pub proof fn lemma_latency_recorded_for_name_and_total(elapsed_time_ms: u64, name: RequestMetricName)
    ensures
        ({
            let ms = event_measurements(MetricEvent::Latency(elapsed_time_ms, name));
            &&& ms.len() == 2
            &&& ms[0] == (Instrument::RpcLatency, ms[0].1, Some(name@))
            &&& ms[1] == (Instrument::RpcLatency, ms[0].1, Some("total"@))
            &&& ms[0].1 >= 1
            &&& elapsed_time_ms >= 1 ==> ms[0].1 == elapsed_time_ms
        }),
{
}

/// Each received request adds one to the request counter under its name,
/// and each failure one to the failure counter.
pub proof fn lemma_requests_and_failures_count_one(name: RequestMetricName)
    ensures
        event_measurements(MetricEvent::Request(name)) == seq![
            (Instrument::RpcCount, 1u64, Some(name@)),
        ],
        event_measurements(MetricEvent::Failure(name)) == seq![
            (Instrument::RpcFailureCount, 1u64, Some(name@)),
        ],
{
}

/// The views of a sequence of measurements.
pub open spec fn measurements_view(ms: Seq<Measurement>) -> Seq<MeasurementView> {
    ms.map_values(|m: Measurement| m@)
}

/// A measurement without a label.
fn plain(instrument: Instrument, value: u64) -> (res: Measurement)
    ensures
        res@ == (instrument, value, None::<Seq<char>>),
{
    Measurement { instrument, value, request_type: None }
}

/// A measurement labelled with `label`.
fn labelled(instrument: Instrument, value: u64, label: &str) -> (res: Measurement)
    ensures
        res@ == (instrument, value, Some(label@)),
{
    Measurement { instrument, value, request_type: Some(label.to_owned()) }
}

/// A measurement labelled with a request metric name.
fn named(instrument: Instrument, value: u64, name: &RequestMetricName) -> (res: Measurement)
    ensures
        res@ == (instrument, value, Some(name@)),
{
    Measurement { instrument, value, request_type: Some(name.to_value()) }
}

/// Rounds a duration or speed up to at least 1.
pub fn round_up_to_one(value: u64) -> (res: u64)
    ensures
        res == at_least_one(value),
        res >= 1,
{
    if value < 1 {
        1
    } else {
        value
    }
}

/// The measurements that an event records, in order.
pub fn measurements(event: &MetricEvent) -> (res: Vec<Measurement>)
    ensures
        measurements_view(res@) == event_measurements(*event),
{
    let res = match event {
        MetricEvent::Registration => vec![
            labelled(Instrument::RpcCount, 0, "total"),
            labelled(Instrument::RpcFailureCount, 0, "total"),
            labelled(Instrument::RpcLatency, 1, "test"),
            plain(Instrument::DbSize, 1),
            plain(Instrument::DbInitLatency, 1),
            plain(Instrument::DbPersistLatency, 1),
            plain(Instrument::DbConnectRetries, 0),
            plain(Instrument::DbPersistFailures, 0),
            plain(Instrument::DbPersistQueueSize, 0),
        ],
        MetricEvent::Request(name) => vec![named(Instrument::RpcCount, 1, name)],
        MetricEvent::Failure(name) => vec![named(Instrument::RpcFailureCount, 1, name)],
        MetricEvent::Latency(ms, name) => {
            let ms = round_up_to_one(*ms);
            vec![named(Instrument::RpcLatency, ms, name), labelled(Instrument::RpcLatency, ms, "total")]
        },
        MetricEvent::DbSaveSpeed(speed) => {
            vec![labelled(Instrument::RpcLatency, round_up_to_one(*speed), "db_save_kb_per_ms")]
        },
        MetricEvent::DbLoadSpeed(speed) => {
            vec![labelled(Instrument::RpcLatency, round_up_to_one(*speed), "db_save_kb_per_ms")]
        },
        MetricEvent::DbSize(size) => vec![plain(Instrument::DbSize, *size)],
        MetricEvent::DbInitLatency(ms) => vec![plain(Instrument::DbInitLatency, *ms)],
        MetricEvent::DbPersistLatency(ms) => vec![plain(Instrument::DbPersistLatency, *ms)],
        MetricEvent::DbConnectRetry => vec![plain(Instrument::DbConnectRetries, 1)],
        MetricEvent::DbPersistFailure => vec![plain(Instrument::DbPersistFailures, 1)],
        MetricEvent::DbPersistQueueSize(n) => vec![plain(Instrument::DbPersistQueueSize, *n)],
    };
    assert(measurements_view(res@) =~= event_measurements(*event));
    res
}


/// The kinds of instruments.
#[derive(Debug, Clone, Copy, PartialEq, Eq, Structural)]
pub enum InstrumentKind {
    Counter,
    Histogram,
    ObservableGauge,
}

/// How an instrument is created: its kind, name, description and unit.
pub type InstrumentSetup = (InstrumentKind, Seq<char>, Seq<char>, Option<Seq<char>>);

/// How each instrument of the server is created.
pub open spec fn instrument_setup(instrument: Instrument) -> InstrumentSetup {
    match instrument {
        Instrument::RpcCount => (
            InstrumentKind::Counter,
            "rpc_count"@,
            "Total number of RPCs received by the private memory server."@,
            None,
        ),
        Instrument::RpcFailureCount => (
            InstrumentKind::Counter,
            "rpc_failure_count"@,
            "Number of RPCs that failed."@,
            None,
        ),
        Instrument::RpcLatency => (
            InstrumentKind::Histogram,
            "rpc_latency"@,
            "Latency in ms of each RPC."@,
            Some("ms"@),
        ),
        Instrument::DbSize => (
            InstrumentKind::Histogram,
            "db_size"@,
            "Size of the database in bytes."@,
            Some("By"@),
        ),
        Instrument::DbInitLatency => (
            InstrumentKind::Histogram,
            "db_init_latency"@,
            "Latency of Icing database initialization."@,
            Some("ms"@),
        ),
        Instrument::DbPersistLatency => (
            InstrumentKind::Histogram,
            "db_persist_latency"@,
            "Latency of persisting the database."@,
            Some("ms"@),
        ),
        Instrument::DbConnectRetries => (
            InstrumentKind::Counter,
            "db_connect_retries"@,
            "Number of retries when connecting to the database."@,
            None,
        ),
        Instrument::DbPersistFailures => (
            InstrumentKind::Counter,
            "db_persist_failures"@,
            "Number of failures when persisting the database."@,
            None,
        ),
        Instrument::DbPersistQueueSize => (
            InstrumentKind::ObservableGauge,
            "db_persist_queue_size"@,
            "Number of items in the database persist queue."@,
            None,
        ),
    }
}

/// What a measurement hands to its instrument: its value, and its label as
/// a `request_type` attribute.
pub open spec fn hand_off(m: MeasurementView) -> HandOff {
    (
        m.1,
        match m.2 {
            Some(label) => Some(("request_type"@, label)),
            None => None,
        },
    )
}

/// What an instrument has been handed after the measurements `ms`, in
/// order: those of the measurements that are for it are appended.
pub open spec fn handed_after(
    handed: Seq<HandOff>,
    instrument: Instrument,
    ms: Seq<MeasurementView>,
) -> Seq<HandOff>
    decreases ms.len(),
{
    if ms.len() == 0 {
        handed
    } else {
        let before = handed_after(handed, instrument, ms.drop_last());
        if ms.last().0 == instrument {
            before.push(hand_off(ms.last()))
        } else {
            before
        }
    }
}

/// Hands a measurement to a counter.
fn add_to_counter(counter: &mut U64Counter, m: &Measurement)
    ensures
        final(counter).handed() == old(counter).handed().push(hand_off(m@)),
        final(counter).name() == old(counter).name(),
        final(counter).description() == old(counter).description(),
{
    match &m.request_type {
        Some(label) => counter_add_with(counter, m.value, "request_type", label.clone()),
        None => counter_add(counter, m.value),
    }
}

/// Hands a measurement to a histogram.
fn record_in_histogram(histogram: &mut U64Histogram, m: &Measurement)
    ensures
        final(histogram).handed() == old(histogram).handed().push(hand_off(m@)),
        final(histogram).name() == old(histogram).name(),
        final(histogram).description() == old(histogram).description(),
        final(histogram).unit() == old(histogram).unit(),
{
    match &m.request_type {
        Some(label) => histogram_record_with(histogram, m.value, "request_type", label.clone()),
        None => histogram_record(histogram, m.value),
    }
}

/// Hands a measurement to a gauge.
fn observe_on_gauge(gauge: &mut U64ObservableGauge, m: &Measurement)
    ensures
        final(gauge).handed() == old(gauge).handed().push(hand_off(m@)),
        final(gauge).name() == old(gauge).name(),
        final(gauge).description() == old(gauge).description(),
{
    match &m.request_type {
        Some(label) => gauge_observe_with(gauge, m.value, "request_type", label.clone()),
        None => gauge_observe(gauge, m.value),
    }
}

/// The instruments of the private memory server.
pub struct Metrics {
    /// Total number of RPCs received by the private memory server.
    rpc_count: U64Counter,
    /// Number of RPCs that failed.
    rpc_failure_count: U64Counter,
    /// Latency of each RPC.
    rpc_latency: U64Histogram,
    /// Size of the database in bytes.
    db_size: U64Histogram,
    /// Latency of database initialization.
    db_init_latency: U64Histogram,
    /// Latency of persisting the database.
    db_persist_latency: U64Histogram,
    /// Number of retries when connecting to the database.
    db_connect_retries: U64Counter,
    /// Number of failures when persisting the database.
    db_persist_failures: U64Counter,
    /// Number of items in the database persist queue.
    db_persist_queue_size: U64ObservableGauge,
}

impl Metrics {
    /// How the instrument was created.
    pub closed spec fn setup(&self, instrument: Instrument) -> InstrumentSetup {
        match instrument {
            Instrument::RpcCount => (
                InstrumentKind::Counter,
                self.rpc_count.name(),
                self.rpc_count.description(),
                None,
            ),
            Instrument::RpcFailureCount => (
                InstrumentKind::Counter,
                self.rpc_failure_count.name(),
                self.rpc_failure_count.description(),
                None,
            ),
            Instrument::RpcLatency => (
                InstrumentKind::Histogram,
                self.rpc_latency.name(),
                self.rpc_latency.description(),
                Some(self.rpc_latency.unit()),
            ),
            Instrument::DbSize => (
                InstrumentKind::Histogram,
                self.db_size.name(),
                self.db_size.description(),
                Some(self.db_size.unit()),
            ),
            Instrument::DbInitLatency => (
                InstrumentKind::Histogram,
                self.db_init_latency.name(),
                self.db_init_latency.description(),
                Some(self.db_init_latency.unit()),
            ),
            Instrument::DbPersistLatency => (
                InstrumentKind::Histogram,
                self.db_persist_latency.name(),
                self.db_persist_latency.description(),
                Some(self.db_persist_latency.unit()),
            ),
            Instrument::DbConnectRetries => (
                InstrumentKind::Counter,
                self.db_connect_retries.name(),
                self.db_connect_retries.description(),
                None,
            ),
            Instrument::DbPersistFailures => (
                InstrumentKind::Counter,
                self.db_persist_failures.name(),
                self.db_persist_failures.description(),
                None,
            ),
            Instrument::DbPersistQueueSize => (
                InstrumentKind::ObservableGauge,
                self.db_persist_queue_size.name(),
                self.db_persist_queue_size.description(),
                None,
            ),
        }
    }

    /// What the instrument has been handed, in order.
    pub closed spec fn handed(&self, instrument: Instrument) -> Seq<HandOff> {
        match instrument {
            Instrument::RpcCount => self.rpc_count.handed(),
            Instrument::RpcFailureCount => self.rpc_failure_count.handed(),
            Instrument::RpcLatency => self.rpc_latency.handed(),
            Instrument::DbSize => self.db_size.handed(),
            Instrument::DbInitLatency => self.db_init_latency.handed(),
            Instrument::DbPersistLatency => self.db_persist_latency.handed(),
            Instrument::DbConnectRetries => self.db_connect_retries.handed(),
            Instrument::DbPersistFailures => self.db_persist_failures.handed(),
            Instrument::DbPersistQueueSize => self.db_persist_queue_size.handed(),
        }
    }

    /// The instruments hold what `before` held plus the measurements of
    /// `event`, and were created the same way.
    pub open spec fn recorded(&self, before: Metrics, event: MetricEvent) -> bool {
        &&& forall|i: Instrument| #[trigger] self.setup(i) == before.setup(i)
        &&& forall|i: Instrument|
            #[trigger] self.handed(i) == handed_after(before.handed(i), i, event_measurements(event))
    }

    /// Creates the instruments on `meter`, each under its name, description
    /// and unit, and starts each of their series with the registration
    /// measurements, so that they show up before they are first
    /// incremented. `None` where the meter's provider cannot create one of
    /// the instruments.
    pub fn new(meter: &Meter) -> (res: Option<Metrics>)
        ensures
            res matches Some(m) ==> forall|i: Instrument|
                #[trigger] m.setup(i) == instrument_setup(i) && m.handed(i) == handed_after(
                    Seq::empty(),
                    i,
                    event_measurements(MetricEvent::Registration),
                ),
    {
        let rpc_count = match new_u64_counter(
            meter,
            "rpc_count",
            "Total number of RPCs received by the private memory server.",
        ) {
            Some(c) => c,
            None => {
                return None;
            },
        };
        let rpc_failure_count = match new_u64_counter(
            meter,
            "rpc_failure_count",
            "Number of RPCs that failed.",
        ) {
            Some(c) => c,
            None => {
                return None;
            },
        };
        let rpc_latency = match new_u64_histogram(
            meter,
            "rpc_latency",
            "Latency in ms of each RPC.",
            "ms",
        ) {
            Some(h) => h,
            None => {
                return None;
            },
        };
        let db_size = match new_u64_histogram(
            meter,
            "db_size",
            "Size of the database in bytes.",
            "By",
        ) {
            Some(h) => h,
            None => {
                return None;
            },
        };
        let db_init_latency = match new_u64_histogram(
            meter,
            "db_init_latency",
            "Latency of Icing database initialization.",
            "ms",
        ) {
            Some(h) => h,
            None => {
                return None;
            },
        };
        let db_persist_latency = match new_u64_histogram(
            meter,
            "db_persist_latency",
            "Latency of persisting the database.",
            "ms",
        ) {
            Some(h) => h,
            None => {
                return None;
            },
        };
        let db_connect_retries = match new_u64_counter(
            meter,
            "db_connect_retries",
            "Number of retries when connecting to the database.",
        ) {
            Some(c) => c,
            None => {
                return None;
            },
        };
        let db_persist_failures = match new_u64_counter(
            meter,
            "db_persist_failures",
            "Number of failures when persisting the database.",
        ) {
            Some(c) => c,
            None => {
                return None;
            },
        };
        let db_persist_queue_size = match new_u64_observable_gauge(
            meter,
            "db_persist_queue_size",
            "Number of items in the database persist queue.",
        ) {
            Some(g) => g,
            None => {
                return None;
            },
        };
        let mut metrics = Metrics {
            rpc_count,
            rpc_failure_count,
            rpc_latency,
            db_size,
            db_init_latency,
            db_persist_latency,
            db_connect_retries,
            db_persist_failures,
            db_persist_queue_size,
        };
        assert forall|i: Instrument| #[trigger] metrics.setup(i) == instrument_setup(i) by {}
        let ghost before = metrics;
        metrics.record_event(&MetricEvent::Registration);
        assert forall|i: Instrument| #[trigger] metrics.setup(i) == instrument_setup(i) by {
            assert(metrics.setup(i) == before.setup(i));
        }
        assert forall|i: Instrument|
            #[trigger] metrics.handed(i) == handed_after(
                Seq::empty(),
                i,
                event_measurements(MetricEvent::Registration),
            ) by {
            assert(before.handed(i) == Seq::<HandOff>::empty());
            assert(metrics.handed(i) == handed_after(
                before.handed(i),
                i,
                event_measurements(MetricEvent::Registration),
            ));
        }
        Some(metrics)
    }

    /// Hands one measurement to its instrument; the others are untouched.
    pub fn record(&mut self, measurement: &Measurement)
        ensures
            forall|i: Instrument| #[trigger] final(self).setup(i) == old(self).setup(i),
            forall|i: Instrument|
                #[trigger] final(self).handed(i) == if i == measurement.instrument {
                    old(self).handed(i).push(hand_off(measurement@))
                } else {
                    old(self).handed(i)
                },
    {
        match measurement.instrument {
            Instrument::RpcCount => add_to_counter(&mut self.rpc_count, measurement),
            Instrument::RpcFailureCount => add_to_counter(&mut self.rpc_failure_count, measurement),
            Instrument::RpcLatency => record_in_histogram(&mut self.rpc_latency, measurement),
            Instrument::DbSize => record_in_histogram(&mut self.db_size, measurement),
            Instrument::DbInitLatency => record_in_histogram(
                &mut self.db_init_latency,
                measurement,
            ),
            Instrument::DbPersistLatency => record_in_histogram(
                &mut self.db_persist_latency,
                measurement,
            ),
            Instrument::DbConnectRetries => add_to_counter(
                &mut self.db_connect_retries,
                measurement,
            ),
            Instrument::DbPersistFailures => add_to_counter(
                &mut self.db_persist_failures,
                measurement,
            ),
            Instrument::DbPersistQueueSize => observe_on_gauge(
                &mut self.db_persist_queue_size,
                measurement,
            ),
        }
    }

    /// Hands the measurements of an event to their instruments, in order.
    pub fn record_event(&mut self, event: &MetricEvent)
        ensures
            final(self).recorded(*old(self), *event),
    {
        let ms = measurements(event);
        let ghost evs = event_measurements(*event);
        let ghost start = *self;
        let n = ms.len();
        assert(measurements_view(ms@) == evs);
        for k in 0..n
            invariant
                n == ms@.len(),
                measurements_view(ms@) == evs,
                forall|i: Instrument| #[trigger] self.setup(i) == start.setup(i),
                forall|i: Instrument|
                    #[trigger] self.handed(i) == handed_after(
                        start.handed(i),
                        i,
                        evs.take(k as int),
                    ),
        {
            let ghost prev = *self;
            self.record(&ms[k]);
            proof {
                assert(evs[k as int] == ms@[k as int]@);
                assert(evs.take(k + 1).drop_last() =~= evs.take(k as int));
                assert(evs.take(k + 1).last() == evs[k as int]);
                assert forall|i: Instrument|
                    #[trigger] self.handed(i) == handed_after(
                        start.handed(i),
                        i,
                        evs.take(k + 1),
                    ) by {
                    assert(prev.handed(i) == handed_after(start.handed(i), i, evs.take(k as int)));
                }
            }
        }
        assert(evs.take(n as int) =~= evs);
    }

    /// Increments the number of requests received of the given type. This
    /// should be called for the name whether the request fails or not; the
    /// name [`RequestMetricName::total`] should be incremented in addition
    /// to the specific request type.
    pub fn inc_requests(&mut self, name: RequestMetricName)
        ensures
            final(self).recorded(*old(self), MetricEvent::Request(name)),
    {
        self.record_event(&MetricEvent::Request(name));
    }

    /// Records a failure for the given request metric name.
    pub fn inc_failures(&mut self, name: RequestMetricName)
        ensures
            final(self).recorded(*old(self), MetricEvent::Failure(name)),
    {
        self.record_event(&MetricEvent::Failure(name));
    }

    /// Records a latency for the given request, rounded up to 1 ms, and the
    /// same latency for the "total" group of requests.
    pub fn record_latency(&mut self, elapsed_time_ms: u64, name: RequestMetricName)
        ensures
            final(self).recorded(*old(self), MetricEvent::Latency(elapsed_time_ms, name)),
    {
        self.record_event(&MetricEvent::Latency(elapsed_time_ms, name));
    }

    /// Records the speed at which the database was saved, rounded up to 1.
    pub fn record_db_save_speed(&mut self, speed: u64)
        ensures
            final(self).recorded(*old(self), MetricEvent::DbSaveSpeed(speed)),
    {
        self.record_event(&MetricEvent::DbSaveSpeed(speed));
    }

    /// Records the speed at which the database was loaded, rounded up to 1.
    pub fn record_db_load_speed(&mut self, speed: u64)
        ensures
            final(self).recorded(*old(self), MetricEvent::DbLoadSpeed(speed)),
    {
        self.record_event(&MetricEvent::DbLoadSpeed(speed));
    }

    /// Records the size of the database, in bytes.
    pub fn record_db_size(&mut self, size: u64)
        ensures
            final(self).recorded(*old(self), MetricEvent::DbSize(size)),
    {
        self.record_event(&MetricEvent::DbSize(size));
    }

    /// Records how long database initialization took, in ms.
    pub fn record_db_init_latency(&mut self, latency: u64)
        ensures
            final(self).recorded(*old(self), MetricEvent::DbInitLatency(latency)),
    {
        self.record_event(&MetricEvent::DbInitLatency(latency));
    }

    /// Records how long persisting the database took, in ms.
    pub fn record_db_persist_latency(&mut self, latency: u64)
        ensures
            final(self).recorded(*old(self), MetricEvent::DbPersistLatency(latency)),
    {
        self.record_event(&MetricEvent::DbPersistLatency(latency));
    }

    /// Counts one retry when connecting to the database.
    pub fn inc_db_connect_retries(&mut self)
        ensures
            final(self).recorded(*old(self), MetricEvent::DbConnectRetry),
    {
        self.record_event(&MetricEvent::DbConnectRetry);
    }

    /// Counts one failure when persisting the database.
    pub fn inc_db_persist_failures(&mut self)
        ensures
            final(self).recorded(*old(self), MetricEvent::DbPersistFailure),
    {
        self.record_event(&MetricEvent::DbPersistFailure);
    }

    /// Records the size of the database persist queue.
    pub fn record_db_persist_queue_size(&mut self, max: u64)
        ensures
            final(self).recorded(*old(self), MetricEvent::DbPersistQueueSize(max)),
    {
        self.record_event(&MetricEvent::DbPersistQueueSize(max));
    }
}

/// Recording a latency hands the rounded-up latency to the latency
/// histogram twice, first under the request's name and then under "total",
/// and touches no other instrument.
pub proof fn lemma_record_latency_hand_offs(
    before: Metrics,
    after: Metrics,
    elapsed_time_ms: u64,
    name: RequestMetricName,
)
    requires
        after.recorded(before, MetricEvent::Latency(elapsed_time_ms, name)),
    ensures
        ({
            let v = at_least_one(elapsed_time_ms);
            after.handed(Instrument::RpcLatency) == before.handed(Instrument::RpcLatency).push(
                (v, Some(("request_type"@, name@))),
            ).push((v, Some(("request_type"@, "total"@))))
        }),
        forall|i: Instrument|
            i != Instrument::RpcLatency ==> #[trigger] after.handed(i) == before.handed(i),
{
    let ms = event_measurements(MetricEvent::Latency(elapsed_time_ms, name));
    reveal_with_fuel(handed_after, 3);
    assert(ms.drop_last().drop_last() =~= Seq::<MeasurementView>::empty());
    assert(ms.drop_last() =~= seq![ms[0]]);
    assert(ms.last() == ms[1]);
    assert(ms.drop_last().last() == ms[0]);
    assert(after.handed(Instrument::RpcLatency) == handed_after(
        before.handed(Instrument::RpcLatency),
        Instrument::RpcLatency,
        ms,
    ));
    assert forall|i: Instrument| i != Instrument::RpcLatency implies #[trigger] after.handed(i)
        == before.handed(i) by {
        assert(after.handed(i) == handed_after(before.handed(i), i, ms));
    }
}

/// Counting a request hands 1 to the request counter under the request's
/// name, and touches no other instrument (in particular, not the "total"
/// series unless the name is the total).
pub proof fn lemma_inc_requests_hand_offs(before: Metrics, after: Metrics, name: RequestMetricName)
    requires
        after.recorded(before, MetricEvent::Request(name)),
    ensures
        after.handed(Instrument::RpcCount) == before.handed(Instrument::RpcCount).push(
            (1u64, Some(("request_type"@, name@))),
        ),
        forall|i: Instrument|
            i != Instrument::RpcCount ==> #[trigger] after.handed(i) == before.handed(i),
{
    let ms = event_measurements(MetricEvent::Request(name));
    reveal_with_fuel(handed_after, 2);
    assert(ms.drop_last() =~= Seq::<MeasurementView>::empty());
    assert(ms.last() == ms[0]);
    assert(after.handed(Instrument::RpcCount) == handed_after(
        before.handed(Instrument::RpcCount),
        Instrument::RpcCount,
        ms,
    ));
    assert forall|i: Instrument| i != Instrument::RpcCount implies #[trigger] after.handed(i)
        == before.handed(i) by {
        assert(after.handed(i) == handed_after(before.handed(i), i, ms));
    }
}

/// Registration starts every instrument's series exactly once: each counter
/// and the gauge with 0, so that no count is recorded before the first
/// event, and each histogram with 1. The request counters start their
/// "total" series.
pub proof fn lemma_registration_starts_each_series_once(m: Metrics)
    requires
        forall|i: Instrument|
            #[trigger] m.handed(i) == handed_after(
                Seq::empty(),
                i,
                event_measurements(MetricEvent::Registration),
            ),
    ensures
        forall|i: Instrument| #[trigger] m.handed(i).len() == 1,
        forall|i: Instrument|
            #[trigger] m.handed(i)[0].0 == match i {
                Instrument::RpcCount | Instrument::RpcFailureCount | Instrument::DbConnectRetries
                | Instrument::DbPersistFailures | Instrument::DbPersistQueueSize => 0u64,
                _ => 1u64,
            },
        m.handed(Instrument::RpcCount)[0].1 == Some(("request_type"@, "total"@)),
        m.handed(Instrument::RpcFailureCount)[0].1 == Some(("request_type"@, "total"@)),
{
    reveal_with_fuel(handed_after, 10);
    let ms = event_measurements(MetricEvent::Registration);
    assert forall|i: Instrument|
        #[trigger] m.handed(i).len() == 1 && m.handed(i)[0].0 == match i {
            Instrument::RpcCount | Instrument::RpcFailureCount | Instrument::DbConnectRetries
            | Instrument::DbPersistFailures | Instrument::DbPersistQueueSize => 0u64,
            _ => 1u64,
        } by {
        assert(m.handed(i) == handed_after(Seq::empty(), i, ms));
        assert(ms.drop_last().drop_last().drop_last().drop_last().drop_last().drop_last()
            .drop_last().drop_last().drop_last() =~= Seq::<MeasurementView>::empty());
    }
    assert(m.handed(Instrument::RpcCount) == handed_after(Seq::empty(), Instrument::RpcCount, ms));
    assert(m.handed(Instrument::RpcFailureCount) == handed_after(
        Seq::empty(),
        Instrument::RpcFailureCount,
        ms,
    ));
}

/// Apart from registration, each event is handed to one instrument: a
/// request or failure counts 1 under its name, a retry or persist failure
/// counts 1, sizes and latencies of the database are handed unchanged, and
/// save or load speeds rounded up to at least 1.
pub proof fn lemma_event_targets(event: MetricEvent)
    ensures
        ({
            let ms = event_measurements(event);
            match event {
                MetricEvent::Registration => ms.len() == 9,
                MetricEvent::Latency(t, name) => ms.len() == 2 && ms[0] == (
                    Instrument::RpcLatency,
                    ms[0].1,
                    Some(name@),
                ) && ms[1] == (Instrument::RpcLatency, ms[0].1, Some("total"@)) && ms[0].1 >= 1
                    && ms[0].1 >= t && (t >= 1 ==> ms[0].1 == t),
                MetricEvent::Request(name) => ms =~= seq![
                    (Instrument::RpcCount, 1u64, Some(name@)),
                ],
                MetricEvent::Failure(name) => ms =~= seq![
                    (Instrument::RpcFailureCount, 1u64, Some(name@)),
                ],
                MetricEvent::DbSaveSpeed(x) => ms.len() == 1 && ms[0].0 == Instrument::RpcLatency
                    && ms[0].1 >= 1 && ms[0].1 >= x && (x >= 1 ==> ms[0].1 == x),
                MetricEvent::DbLoadSpeed(x) => ms.len() == 1 && ms[0].0 == Instrument::RpcLatency
                    && ms[0].1 >= 1 && ms[0].1 >= x && (x >= 1 ==> ms[0].1 == x),
                MetricEvent::DbSize(x) => ms =~= seq![(Instrument::DbSize, x, None::<Seq<char>>)],
                MetricEvent::DbInitLatency(x) => ms =~= seq![
                    (Instrument::DbInitLatency, x, None::<Seq<char>>),
                ],
                MetricEvent::DbPersistLatency(x) => ms =~= seq![
                    (Instrument::DbPersistLatency, x, None::<Seq<char>>),
                ],
                MetricEvent::DbConnectRetry => ms =~= seq![
                    (Instrument::DbConnectRetries, 1u64, None::<Seq<char>>),
                ],
                MetricEvent::DbPersistFailure => ms =~= seq![
                    (Instrument::DbPersistFailures, 1u64, None::<Seq<char>>),
                ],
                MetricEvent::DbPersistQueueSize(x) => ms =~= seq![
                    (Instrument::DbPersistQueueSize, x, None::<Seq<char>>),
                ],
            }
        }),
{
}

/// Each request is named by its own message name: the name has the length
/// of that message name and begins with its first letter.
pub proof fn lemma_request_message_name_shape(r: SealedMemoryRequest)
    ensures
        request_message_name(r).len() > 0,
        match r {
            SealedMemoryRequest::UserRegistrationRequest => request_message_name(r).len() == 23
                && request_message_name(r)[0] == 'U',
            SealedMemoryRequest::KeySyncRequest => request_message_name(r).len() == 14
                && request_message_name(r)[0] == 'K',
            SealedMemoryRequest::AddMemoryRequest => request_message_name(r).len() == 16
                && request_message_name(r)[0] == 'A',
            SealedMemoryRequest::GetMemoriesRequest => request_message_name(r).len() == 18
                && request_message_name(r)[0] == 'G',
            SealedMemoryRequest::ResetMemoryRequest => request_message_name(r).len() == 18
                && request_message_name(r)[0] == 'R',
            SealedMemoryRequest::GetMemoryByIdRequest => request_message_name(r).len() == 20
                && request_message_name(r)[0] == 'G',
            SealedMemoryRequest::SearchMemoryRequest => request_message_name(r).len() == 19
                && request_message_name(r)[0] == 'S',
            SealedMemoryRequest::DeleteMemoryRequest => request_message_name(r).len() == 19
                && request_message_name(r)[0] == 'D',
        },
{
    reveal_strlit("UserRegistrationRequest");
    reveal_strlit("KeySyncRequest");
    reveal_strlit("AddMemoryRequest");
    reveal_strlit("GetMemoriesRequest");
    reveal_strlit("ResetMemoryRequest");
    reveal_strlit("GetMemoryByIdRequest");
    reveal_strlit("SearchMemoryRequest");
    reveal_strlit("DeleteMemoryRequest");
}

/// Different kinds of requests are counted under different names: the
/// naming of requests is injective, and no request is counted under the
/// names of the handshake or of the total.
pub proof fn lemma_request_names_distinct(a: SealedMemoryRequest, b: SealedMemoryRequest)
    ensures
        request_message_name(a) == request_message_name(b) ==> a == b,
        request_message_name(a) != "total"@,
        request_message_name(a) != "Handshake"@,
{
    lemma_request_message_name_shape(a);
    lemma_request_message_name_shape(b);
    reveal_strlit("total");
    reveal_strlit("Handshake");
    if request_message_name(a) == "total"@ {
        assert(request_message_name(a)[0] == 't');
    }
    if request_message_name(a) == "Handshake"@ {
        assert(request_message_name(a).len() == 9);
    }
}

} // verus!
