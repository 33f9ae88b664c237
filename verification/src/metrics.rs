//! The metrics behind the rewritten functions: four families of series in
//! one registry, kept by the `prometheus` crate. Calls and failures are
//! counted, calls in flight are gauged, and the time of each call is
//! observed, each series told apart by the function's name and the label of
//! the call site.
//!
//! `Metrics` is the one state object. Every change takes it by `&mut`, so
//! that a contract can say what a call does to each series and what the
//! registry holds.

use vstd::prelude::*;
use crate::labels::{distinct_labels, label_map, pair_texts, settle_labels, settled};
use crate::registry::{
    lemma_parts_read_back,
    valid_label_name,
    valid_metric_name,
    descriptor_id,
    dimension_hash,
    prefixed,
    process_descriptors,
    registry_collectors,
    registry_dims,
    registry_has_process,
    registry_ids,
    registry_labels,
    registry_prefix,
    registry_view,
    Descriptor,
    RegistryView,
};
use std::fmt::Debug;
use std::time::{Duration, Instant};

verus! {

/// The registry of `prometheus`.
#[verifier::external_type_specification]
#[verifier::external_body]
pub struct ExRegistry(prometheus::Registry);

/// The error type of `prometheus`.
#[verifier::external_type_specification]
#[verifier::external_body]
pub struct ExPrometheusError(prometheus::Error);

/// A gathered family of `prometheus`, ready to be encoded.
#[verifier::external_type_specification]
#[verifier::external_body]
pub struct ExMetricFamily(prometheus::proto::MetricFamily);

/// A point in time of std.
#[verifier::external_type_specification]
#[verifier::external_body]
pub struct ExInstant(Instant);

/// A family of integer counters, one for each combination of label values:
/// an `IntCounterVec` of `prometheus`.
#[verifier::external_body]
pub struct CounterFamily {
    inner: prometheus::IntCounterVec,
}

/// A family of integer gauges: an `IntGaugeVec` of `prometheus`.
#[verifier::external_body]
pub struct GaugeFamily {
    inner: prometheus::IntGaugeVec,
}

/// A family of histograms: a `HistogramVec` of `prometheus`.
#[verifier::external_body]
pub struct HistogramFamily {
    inner: prometheus::HistogramVec,
}

/// The slot in which a family keeps the series of given label values: the
/// 64-bit FNV hash over the bytes of the values in their order, by which
/// `prometheus` finds a series. Label values with the same slot share one
/// series.
pub uninterp spec fn label_slot(values: Seq<Seq<char>>) -> u64;

/// The count that each slot of a counter family stands at; zero where the
/// slot holds no series yet.
pub uninterp spec fn counter_slots(family: CounterFamily) -> Map<u64, i64>;

/// The number of label values that tell the series of a counter family
/// apart.
pub uninterp spec fn counter_width(family: CounterFamily) -> nat;

/// The value that each slot of a gauge family stands at; zero where the
/// slot holds no series yet.
pub uninterp spec fn gauge_slots(family: GaugeFamily) -> Map<u64, i64>;

/// The number of label values that tell the series of a gauge family apart.
pub uninterp spec fn gauge_width(family: GaugeFamily) -> nat;

/// The number of observations that each slot of a histogram family has
/// taken; zero where the slot holds no series yet.
pub uninterp spec fn histogram_counts(family: HistogramFamily) -> Map<u64, u64>;

/// The number of label values that tell the series of a histogram family
/// apart.
pub uninterp spec fn histogram_width(family: HistogramFamily) -> nat;

/// The name, the help and the label names, in a row, that a counter family
/// was made with.
pub uninterp spec fn counter_descriptor(family: CounterFamily) -> Seq<Seq<char>>;

/// The name, the help and the label names, in a row, that a gauge family
/// was made with.
pub uninterp spec fn gauge_descriptor(family: GaugeFamily) -> Seq<Seq<char>>;

/// The name, the help and the label names, in a row, that a histogram
/// family was made with.
pub uninterp spec fn histogram_descriptor(family: HistogramFamily) -> Seq<Seq<char>>;

/// The name of a gathered family.
pub uninterp spec fn family_name(family: prometheus::proto::MetricFamily) -> Seq<char>;

/// The kind of metric that a gathered family holds.
pub uninterp spec fn family_kind(family: prometheus::proto::MetricFamily) -> FamilyKind;

/// The kinds of metric that a family can hold.
#[derive(Clone, Copy, Debug, PartialEq, Eq, Structural)]
pub enum FamilyKind {
    Counter,
    Gauge,
    Summary,
    Untyped,
    Histogram,
}

impl FamilyKind {
    /// Whether the text encoder writes families of this kind: counters,
    /// gauges and histograms.
    pub open spec fn spec_encoded(self) -> bool {
        self == FamilyKind::Counter || self == FamilyKind::Gauge || self == FamilyKind::Histogram
    }

    /// Whether the text encoder writes families of this kind.
    #[verifier::when_used_as_spec(spec_encoded)]
    pub fn encoded(self) -> (encoded: bool)
        ensures
            encoded == self.spec_encoded(),
    {
        match self {
            FamilyKind::Counter => true,
            FamilyKind::Gauge => true,
            FamilyKind::Histogram => true,
            FamilyKind::Summary => false,
            FamilyKind::Untyped => false,
        }
    }
}

/// Whether the text encoder writes every one of the families.
pub open spec fn encodable(families: Seq<prometheus::proto::MetricFamily>) -> bool {
    forall|i: int| 0 <= i < families.len() ==> family_kind(#[trigger] families[i]).spec_encoded()
}

/// Whether the families hold one for each figure of the running process,
/// under the name that the prefix gives it.
pub open spec fn reports_process(
    prefix: Option<Seq<char>>,
    families: Seq<prometheus::proto::MetricFamily>,
) -> bool {
    forall|k: int|
        0 <= k < 6 ==> exists|i: int|
            0 <= i < families.len() && family_name(#[trigger] families[i]) == prefixed(
                prefix,
                (#[trigger] process_descriptors()[k]).name,
            )
}

/// Whether no two of the families have the same name.
pub open spec fn named_apart(families: Seq<prometheus::proto::MetricFamily>) -> bool {
    forall|i: int, j: int|
        0 <= i < j < families.len() ==> family_name(#[trigger] families[i]) != family_name(
            #[trigger] families[j],
        )
}

/// What holds of the families that a registry gathers, whenever it does:
/// no two have the same name, and where the collector of the process's own
/// figures is registered, they hold its six families.
pub open spec fn gathered(registry: RegistryView, families: Seq<prometheus::proto::MetricFamily>) -> bool {
    &&& named_apart(families)
    &&& registry.process ==> reports_process(registry.prefix, families)
}

/// The texts of label values.
pub open spec fn label_texts(values: Seq<&str>) -> Seq<Seq<char>> {
    Seq::new(values.len(), |i: int| values[i]@)
}

/// A family in which every series stands at zero.
pub open spec fn all_zero_i64() -> Map<u64, i64> {
    Map::new(|slot: u64| true, |slot: u64| 0i64)
}

/// A histogram family in which no series has taken an observation.
pub open spec fn all_zero_u64() -> Map<u64, u64> {
    Map::new(|slot: u64| true, |slot: u64| 0u64)
}

/// One more, as a 64-bit atomic integer counts: from the largest value on
/// to the smallest.
pub open spec fn next_i64(value: i64) -> i64 {
    if value == i64::MAX {
        i64::MIN
    } else {
        (value + 1) as i64
    }
}

/// One less, as a 64-bit atomic integer counts: from the smallest value on
/// to the largest.
pub open spec fn prev_i64(value: i64) -> i64 {
    if value == i64::MIN {
        i64::MAX
    } else {
        (value - 1) as i64
    }
}

/// One more, as an unsigned 64-bit atomic integer counts: from the largest
/// value on to zero.
pub open spec fn next_u64(value: u64) -> u64 {
    if value == u64::MAX {
        0
    } else {
        (value + 1) as u64
    }
}

/// The labels that a registry is made with: those of the pairs, or none.
pub open spec fn labels_given(labels: Option<Vec<(String, String)>>) -> Map<Seq<char>, Seq<char>> {
    match labels {
        Some(pairs) => label_map(pair_texts(pairs@)),
        None => Map::empty(),
    }
}

/// The labels that the metrics are set up with: those of the pairs, of a
/// label that is given more than once the last value, or none.
pub open spec fn labels_settled(labels: Option<Vec<(String, String)>>) -> Map<
    Seq<char>,
    Seq<char>,
> {
    match labels {
        Some(pairs) => label_map(settled(pair_texts(pairs@), pairs@.len() as int)),
        None => Map::empty(),
    }
}

/// The text of a prefix that may be absent.
pub open spec fn prefix_text(prefix: Option<String>) -> Option<Seq<char>> {
    match prefix {
        Some(text) => Some(text@),
        None => None,
    }
}

/// `Registry::new_custom` of `prometheus`, the labels handed over as a map,
/// pair for pair: no label may come twice. It refuses an empty prefix and
/// nothing else. The registry that is made has the prefix and the labels,
/// and nothing is registered with it.
#[verifier::external_body]
fn registry_new_custom(prefix: Option<String>, labels: Option<Vec<(String, String)>>) -> (made:
    Result<prometheus::Registry, prometheus::Error>)
    requires
        labels matches Some(pairs) ==> distinct_labels(pair_texts(pairs@)),
    ensures
        made is Err <==> (prefix matches Some(text) && text@.len() == 0),
        made matches Ok(registry) ==> {
            &&& registry_prefix(registry) == prefix_text(prefix)
            &&& registry_labels(registry) == labels_given(labels)
            &&& registry_ids(registry) == Set::<u64>::empty()
            &&& registry_dims(registry) == Map::<Seq<char>, u64>::empty()
            &&& registry_collectors(registry) == Set::<u64>::empty()
            &&& !registry_has_process(registry)
        },
{
    prometheus::Registry::new_custom(prefix, labels.map(|pairs| pairs.into_iter().collect()))
}

/// `Registry::register` of `prometheus` on `ProcessCollector::for_self()`:
/// registers the collector that reports what the running process uses of
/// CPU time, memory and file descriptors. The registry takes it exactly
/// where `takes_process` says; a registry that refuses it has registered
/// nothing more than before.
#[verifier::external_body]
fn register_default_process_collector(registry: &mut prometheus::Registry) -> (done: Result<
    (),
    prometheus::Error,
>)
    ensures
        done is Ok <==> registry_view(*old(registry)).takes_process(),
        done is Ok ==> registry_view(*final(registry)) == registry_view(
            *old(registry),
        ).with_process(),
        done is Err ==> refused(registry_view(*old(registry)), registry_view(*final(registry))),
        done is Ok ==> registry_has_process(*final(registry)),
{
    let collector = prometheus::process_collector::ProcessCollector::for_self();
    registry.register(Box::new(collector))
}

/// What a registry that refuses a collector is left as: all is as before,
/// but that it may have noted the dimension hash of more names.
pub open spec fn refused(before: RegistryView, after: RegistryView) -> bool {
    &&& before.kept_by(after)
    &&& after.ids == before.ids
    &&& after.collectors == before.collectors
    &&& after.process == before.process
}

/// The descriptor that a family is made with.
pub open spec fn descriptor_given(name: &str, help: &str, label_names: Seq<&str>) -> Descriptor {
    Descriptor { name: name@, help: help@, labels: label_texts(label_names) }
}

/// `IntCounterVec::new` of `prometheus` with `Opts::new(name, help)`. The
/// family is made exactly where its descriptor is valid. A family that is
/// made has the given name, help and label names, and no series yet.
#[verifier::external_body]
fn counter_family_new(name: &str, help: &str, label_names: &[&str]) -> (made: Result<
    CounterFamily,
    prometheus::Error,
>)
    ensures
        made is Ok <==> descriptor_given(name, help, label_names@).valid(),
        made matches Ok(family) ==> {
            &&& counter_slots(family) == all_zero_i64()
            &&& counter_width(family) == label_names@.len()
            &&& counter_descriptor(family) == Descriptor::parts(
                name@,
                help@,
                label_texts(label_names@),
            )
        },
{
    let inner = prometheus::IntCounterVec::new(prometheus::Opts::new(name, help), label_names)?;
    Ok(CounterFamily { inner })
}

/// `IntGaugeVec::new` of `prometheus` with `Opts::new(name, help)`. The
/// family is made exactly where its descriptor is valid. A family that is
/// made has the given name, help and label names, and no series yet.
#[verifier::external_body]
fn gauge_family_new(name: &str, help: &str, label_names: &[&str]) -> (made: Result<
    GaugeFamily,
    prometheus::Error,
>)
    ensures
        made is Ok <==> descriptor_given(name, help, label_names@).valid(),
        made matches Ok(family) ==> {
            &&& gauge_slots(family) == all_zero_i64()
            &&& gauge_width(family) == label_names@.len()
            &&& gauge_descriptor(family) == Descriptor::parts(
                name@,
                help@,
                label_texts(label_names@),
            )
        },
{
    let inner = prometheus::IntGaugeVec::new(prometheus::Opts::new(name, help), label_names)?;
    Ok(GaugeFamily { inner })
}

/// `HistogramVec::new` of `prometheus` with `HistogramOpts::new(name, help)`
/// and so with the default buckets. The family is made exactly where its
/// descriptor is valid. A family that is made has the given name, help and
/// label names, and no series yet. A label named `le` is left out: the
/// family would be made, and would panic when its first series is.
#[verifier::external_body]
fn histogram_family_new(name: &str, help: &str, label_names: &[&str]) -> (made: Result<
    HistogramFamily,
    prometheus::Error,
>)
    requires
        forall|i: int| 0 <= i < label_names@.len() ==> (#[trigger] label_names@[i])@ != "le"@,
    ensures
        made is Ok <==> descriptor_given(name, help, label_names@).valid(),
        made matches Ok(family) ==> {
            &&& histogram_counts(family) == all_zero_u64()
            &&& histogram_width(family) == label_names@.len()
            &&& histogram_descriptor(family) == Descriptor::parts(
                name@,
                help@,
                label_texts(label_names@),
            )
        },
{
    let opts = prometheus::HistogramOpts::new(name, help);
    let inner = prometheus::HistogramVec::new(opts, label_names)?;
    Ok(HistogramFamily { inner })
}

/// `Registry::register` of `prometheus` on a handle to a counter family. The
/// registry takes the family exactly where `takes` says of its descriptor,
/// whose identifier is `descriptor_id` of its name and whose dimension hash
/// is `dimension_hash` of its help and label names. The family itself is
/// as before; a registry that refuses it has registered nothing more than
/// before.
#[verifier::external_body]
fn register_counter_family(registry: &mut prometheus::Registry, family: &CounterFamily) -> (done: Result<
    (),
    prometheus::Error,
>)
    ensures
        done is Ok <==> registry_view(*old(registry)).takes(
            Descriptor::of(counter_descriptor(*family)),
        ),
        done is Ok ==> registry_view(*final(registry)) == registry_view(*old(registry)).with(
            Descriptor::of(counter_descriptor(*family)),
        ),
        done is Err ==> refused(registry_view(*old(registry)), registry_view(*final(registry))),
        done is Ok ==> registry_ids(*final(registry)).contains(
            descriptor_id(counter_descriptor(*family)[0]),
        ) && registry_dims(*final(registry))[counter_descriptor(*family)[0]] == dimension_hash(
            counter_descriptor(*family)[1],
            counter_descriptor(*family).skip(2),
        ),
{
    registry.register(Box::new(family.inner.clone()))
}

/// `Registry::register` of `prometheus` on a handle to a gauge family. The
/// registry takes the family exactly where `takes` says of its descriptor,
/// whose identifier is `descriptor_id` of its name and whose dimension hash
/// is `dimension_hash` of its help and label names. The family itself is
/// as before; a registry that refuses it has registered nothing more than
/// before.
#[verifier::external_body]
fn register_gauge_family(registry: &mut prometheus::Registry, family: &GaugeFamily) -> (done: Result<
    (),
    prometheus::Error,
>)
    ensures
        done is Ok <==> registry_view(*old(registry)).takes(
            Descriptor::of(gauge_descriptor(*family)),
        ),
        done is Ok ==> registry_view(*final(registry)) == registry_view(*old(registry)).with(
            Descriptor::of(gauge_descriptor(*family)),
        ),
        done is Err ==> refused(registry_view(*old(registry)), registry_view(*final(registry))),
        done is Ok ==> registry_ids(*final(registry)).contains(
            descriptor_id(gauge_descriptor(*family)[0]),
        ) && registry_dims(*final(registry))[gauge_descriptor(*family)[0]] == dimension_hash(
            gauge_descriptor(*family)[1],
            gauge_descriptor(*family).skip(2),
        ),
{
    registry.register(Box::new(family.inner.clone()))
}

/// `Registry::register` of `prometheus` on a handle to a histogram family. The
/// registry takes the family exactly where `takes` says of its descriptor,
/// whose identifier is `descriptor_id` of its name and whose dimension hash
/// is `dimension_hash` of its help and label names. The family itself is
/// as before; a registry that refuses it has registered nothing more than
/// before.
#[verifier::external_body]
fn register_histogram_family(registry: &mut prometheus::Registry, family: &HistogramFamily) -> (done: Result<
    (),
    prometheus::Error,
>)
    ensures
        done is Ok <==> registry_view(*old(registry)).takes(
            Descriptor::of(histogram_descriptor(*family)),
        ),
        done is Ok ==> registry_view(*final(registry)) == registry_view(*old(registry)).with(
            Descriptor::of(histogram_descriptor(*family)),
        ),
        done is Err ==> refused(registry_view(*old(registry)), registry_view(*final(registry))),
        done is Ok ==> registry_ids(*final(registry)).contains(
            descriptor_id(histogram_descriptor(*family)[0]),
        ) && registry_dims(*final(registry))[histogram_descriptor(*family)[0]] == dimension_hash(
            histogram_descriptor(*family)[1],
            histogram_descriptor(*family).skip(2),
        ),
{
    registry.register(Box::new(family.inner.clone()))
}

/// `with_label_values(values).inc()` on an `IntCounterVec` of `prometheus`:
/// the series in the slot of the label values, made at zero if it is not
/// there yet, counts one more. The number of values must be that of the
/// family's label names, or the call would panic.
#[verifier::external_body]
fn counter_family_inc(family: &mut CounterFamily, values: &[&str])
    requires
        values@.len() == counter_width(*old(family)),
    ensures
        counter_slots(*final(family)) == counter_slots(*old(family)).insert(
            label_slot(label_texts(values@)),
            next_i64(counter_slots(*old(family))[label_slot(label_texts(values@))]),
        ),
        counter_width(*final(family)) == counter_width(*old(family)),
    no_unwind
{
    family.inner.with_label_values(values).inc();
}

/// `with_label_values(values).inc()` on an `IntGaugeVec` of `prometheus`:
/// the series in the slot of the label values, made at zero if it is not
/// there yet, goes up by one.
#[verifier::external_body]
fn gauge_family_inc(family: &mut GaugeFamily, values: &[&str])
    requires
        values@.len() == gauge_width(*old(family)),
    ensures
        gauge_slots(*final(family)) == gauge_slots(*old(family)).insert(
            label_slot(label_texts(values@)),
            next_i64(gauge_slots(*old(family))[label_slot(label_texts(values@))]),
        ),
        gauge_width(*final(family)) == gauge_width(*old(family)),
    no_unwind
{
    family.inner.with_label_values(values).inc();
}

/// `with_label_values(values).dec()` on an `IntGaugeVec` of `prometheus`:
/// the series in the slot of the label values, made at zero if it is not
/// there yet, goes down by one.
#[verifier::external_body]
fn gauge_family_dec(family: &mut GaugeFamily, values: &[&str])
    requires
        values@.len() == gauge_width(*old(family)),
    ensures
        gauge_slots(*final(family)) == gauge_slots(*old(family)).insert(
            label_slot(label_texts(values@)),
            prev_i64(gauge_slots(*old(family))[label_slot(label_texts(values@))]),
        ),
        gauge_width(*final(family)) == gauge_width(*old(family)),
    no_unwind
{
    family.inner.with_label_values(values).dec();
}

/// `with_label_values(values)` on a `HistogramVec` of `prometheus`, the
/// series that comes back let go: the series in the slot of the label
/// values is made, with no observation, if it is not there yet. No series
/// takes an observation.
#[verifier::external_body]
fn histogram_family_touch(family: &mut HistogramFamily, values: &[&str])
    requires
        values@.len() == histogram_width(*old(family)),
    ensures
        histogram_counts(*final(family)) == histogram_counts(*old(family)),
        histogram_width(*final(family)) == histogram_width(*old(family)),
    no_unwind
{
    family.inner.with_label_values(values);
}

/// `with_label_values(values).observe(seconds)` on a `HistogramVec` of
/// `prometheus`, with the seconds of a duration: the series in the slot of
/// the label values, made empty if it is not there yet, takes one
/// observation.
#[verifier::external_body]
fn histogram_family_observe(family: &mut HistogramFamily, values: &[&str], elapsed: Duration)
    requires
        values@.len() == histogram_width(*old(family)),
    ensures
        histogram_counts(*final(family)) == histogram_counts(*old(family)).insert(
            label_slot(label_texts(values@)),
            next_u64(histogram_counts(*old(family))[label_slot(label_texts(values@))]),
        ),
        histogram_width(*final(family)) == histogram_width(*old(family)),
    no_unwind
{
    family.inner.with_label_values(values).observe(elapsed.as_secs_f64());
}

/// `Registry::gather` of `prometheus`: collects from every registered
/// collector. What comes back depends on the running process. Of every
/// outcome this much holds: no two families have the same name; and where
/// the collector of the process's own figures is registered, its six
/// families are among the families, each under its name behind the
/// registry's prefix.
#[verifier::external_body]
fn registry_gather(registry: &prometheus::Registry) -> (families: Vec<
    prometheus::proto::MetricFamily,
>)
    ensures
        registry_has_process(*registry) ==> reports_process(
            registry_prefix(*registry),
            families@,
        ),
        forall|i: int, j: int|
            0 <= i < j < families@.len() ==> family_name(#[trigger] families@[i]) != family_name(
                #[trigger] families@[j],
            ),
{
    registry.gather()
}

/// `MetricFamily::get_field_type` of `prometheus`: the kind of metric that
/// a gathered family holds, variant for variant.
#[verifier::external_body]
fn kind_of(family: &prometheus::proto::MetricFamily) -> (kind: FamilyKind)
    ensures
        kind == family_kind(*family),
{
    match family.get_field_type() {
        prometheus::proto::MetricType::COUNTER => FamilyKind::Counter,
        prometheus::proto::MetricType::GAUGE => FamilyKind::Gauge,
        prometheus::proto::MetricType::SUMMARY => FamilyKind::Summary,
        prometheus::proto::MetricType::UNTYPED => FamilyKind::Untyped,
        prometheus::proto::MetricType::HISTOGRAM => FamilyKind::Histogram,
    }
}

/// The text exposition of gathered families, as `TextEncoder::encode` of
/// `prometheus` writes it; nothing where the encoder refuses the families,
/// which it does for a family without metrics or without a name.
pub uninterp spec fn text_exposition(families: Seq<prometheus::proto::MetricFamily>) -> Option<
    Seq<u8>,
>;

/// Whether an outcome is what encoding the families comes to: their text
/// exposition, or a failure where the encoder refuses them.
pub open spec fn exposes(
    families: Seq<prometheus::proto::MetricFamily>,
    encoded: Result<Vec<u8>, prometheus::Error>,
) -> bool {
    match encoded {
        Ok(text) => text_exposition(families) == Some(text@),
        Err(_) => text_exposition(families) is None,
    }
}

/// `TextEncoder::encode` of `prometheus` into a fresh buffer: the text
/// exposition of gathered families. The encoder writes what the families
/// hold and nothing else, so the contract gives the outcome its name,
/// `text_exposition`. The encoder writes counters, gauges and histograms
/// and panics on a family of another kind that has a metric: such families
/// are left out.
#[verifier::external_body]
fn encode_text(families: &Vec<prometheus::proto::MetricFamily>) -> (encoded: Result<
    Vec<u8>,
    prometheus::Error,
>)
    requires
        encodable(families@),
    ensures
        match encoded {
            Ok(text) => text_exposition(families@) == Some(text@),
            Err(_) => text_exposition(families@) is None,
        },
{
    let mut buffer = Vec::new();
    prometheus::Encoder::encode(&prometheus::TextEncoder::new(), families, &mut buffer)?;
    Ok(buffer)
}

/// `TextEncoder::format_type` of `prometheus`: the content type of the text
/// exposition, its constant `TEXT_FORMAT`.
#[verifier::external_body]
fn text_format_type() -> (format: String)
    ensures
        format@ == "text/plain; version=0.0.4"@,
{
    prometheus::Encoder::format_type(&prometheus::TextEncoder::new()).to_string()
}

/// `Instant::now` of std.
#[verifier::external_body]
fn instant_now() -> (now: Instant) {
    Instant::now()
}

/// `Instant::elapsed` of std: the time since the instant.
#[verifier::external_body]
fn instant_elapsed(since: &Instant) -> (elapsed: Duration) {
    since.elapsed()
}

/// The label value that marks every series of a function call.
pub open spec fn call_kind() -> Seq<char> {
    "func_call"@
}

/// The slot of the series that counts the calls of a function at a call
/// site, that gauges its calls in flight, and that takes their times.
pub open spec fn call_series(name: Seq<char>, ctx: Seq<char>) -> u64 {
    label_slot(seq![call_kind(), name, ctx])
}

/// The slot of the series that counts the failures of a function at a call
/// site that have a given text.
pub open spec fn error_series(name: Seq<char>, ctx: Seq<char>, err: Seq<char>) -> u64 {
    label_slot(seq![call_kind(), name, ctx, err])
}

/// The descriptor of the family that counts calls.
pub open spec fn calls_descriptor() -> Descriptor {
    Descriptor {
        name: "function_called_total"@,
        help: "Number of times a function was called"@,
        labels: seq!["type"@, "name"@, "ctx"@],
    }
}

/// The descriptor of the family that counts failures.
pub open spec fn errors_descriptor() -> Descriptor {
    Descriptor {
        name: "function_error_total"@,
        help: "Number of times the result of a function was an error"@,
        labels: seq!["type"@, "name"@, "ctx"@, "err"@],
    }
}

/// The descriptor of the family that takes the times of calls.
pub open spec fn latency_descriptor() -> Descriptor {
    Descriptor {
        name: "function_time_seconds"@,
        help: "Histogram of function call times observed"@,
        labels: seq!["type"@, "name"@, "ctx"@],
    }
}

/// The descriptor of the family that gauges calls in flight.
pub open spec fn inflight_descriptor() -> Descriptor {
    Descriptor {
        name: "function_calls_inflight_total"@,
        help: "Number of function calls currently in flight"@,
        labels: seq!["type"@, "name"@, "ctx"@],
    }
}

/// The four families have descriptors that `prometheus` makes metrics of.
pub proof fn lemma_descriptors_valid()
    ensures
        calls_descriptor().valid(),
        errors_descriptor().valid(),
        latency_descriptor().valid(),
        inflight_descriptor().valid(),
{
    reveal_strlit("type");
    reveal_strlit("name");
    reveal_strlit("ctx");
    reveal_strlit("err");
    reveal_strlit("function_called_total");
    reveal_strlit("function_error_total");
    reveal_strlit("function_time_seconds");
    reveal_strlit("function_calls_inflight_total");
    reveal_strlit("Number of times a function was called");
    reveal_strlit("Number of times the result of a function was an error");
    reveal_strlit("Histogram of function call times observed");
    reveal_strlit("Number of function calls currently in flight");
    assert(valid_label_name("type"@));
    assert(valid_label_name("name"@));
    assert(valid_label_name("ctx"@));
    assert(valid_label_name("err"@));
    assert(valid_metric_name("function_called_total"@));
    assert(valid_metric_name("function_error_total"@));
    assert(valid_metric_name("function_time_seconds"@));
    assert(valid_metric_name("function_calls_inflight_total"@));
    assert("type"@[0] != "name"@[0]);
}

/// What a registry holds once the metrics are set up on it: the collector
/// of the process's own figures and the four families, registered in this
/// order.
pub open spec fn set_up(registry: RegistryView) -> RegistryView {
    registry.with_process().with(calls_descriptor()).with(errors_descriptor()).with(
        latency_descriptor(),
    ).with(inflight_descriptor())
}

/// Whether a registry with nothing registered takes all that the metrics
/// register with it. `prometheus` tells descriptors and collectors apart by
/// 64-bit hashes of their names, so this says that those hashes differ: no
/// two of the ten descriptors have the same identifier, and no two of the
/// five collectors.
pub open spec fn descriptors_apart() -> bool {
    let fresh = RegistryView::fresh(None, Map::empty());
    &&& fresh.takes_process()
    &&& fresh.with_process().takes(calls_descriptor())
    &&& fresh.with_process().with(calls_descriptor()).takes(errors_descriptor())
    &&& fresh.with_process().with(calls_descriptor()).with(errors_descriptor()).takes(
        latency_descriptor(),
    )
    &&& fresh.with_process().with(calls_descriptor()).with(errors_descriptor()).with(
        latency_descriptor(),
    ).takes(inflight_descriptor())
}

/// What the registry holds and what the four families stand at, slot by
/// slot.
pub struct MetricsView {
    /// What the registry holds.
    pub registry: RegistryView,
    /// Calls counted.
    pub calls: Map<u64, i64>,
    /// Failures counted.
    pub errors: Map<u64, i64>,
    /// Times of calls observed.
    pub latency: Map<u64, u64>,
    /// Calls in flight.
    pub inflight: Map<u64, i64>,
}

impl MetricsView {
    /// Metrics as they are set up: a registry with the prefix and the
    /// labels that holds the collector of the process's own figures and the
    /// four families, and families with no series yet.
    pub open spec fn fresh(prefix: Option<Seq<char>>, labels: Map<Seq<char>, Seq<char>>) -> MetricsView {
        MetricsView {
            registry: set_up(RegistryView::fresh(prefix, labels)),
            calls: all_zero_i64(),
            errors: all_zero_i64(),
            latency: all_zero_u64(),
            inflight: all_zero_i64(),
        }
    }

    /// After one more call of `name` at `ctx` is counted.
    pub open spec fn record_call(self, name: Seq<char>, ctx: Seq<char>) -> MetricsView {
        MetricsView {
            calls: self.calls.insert(
                call_series(name, ctx),
                next_i64(self.calls[call_series(name, ctx)]),
            ),
            ..self
        }
    }

    /// After one more failure of `name` at `ctx` with the text `err` is
    /// counted.
    pub open spec fn record_error(self, name: Seq<char>, ctx: Seq<char>, err: Seq<char>) -> MetricsView {
        MetricsView {
            errors: self.errors.insert(
                error_series(name, ctx, err),
                next_i64(self.errors[error_series(name, ctx, err)]),
            ),
            ..self
        }
    }

    /// After a call of `name` at `ctx` has entered flight.
    pub open spec fn enter(self, name: Seq<char>, ctx: Seq<char>) -> MetricsView {
        MetricsView {
            inflight: self.inflight.insert(
                call_series(name, ctx),
                next_i64(self.inflight[call_series(name, ctx)]),
            ),
            ..self
        }
    }

    /// After a call of `name` at `ctx` has left flight.
    pub open spec fn exit(self, name: Seq<char>, ctx: Seq<char>) -> MetricsView {
        MetricsView {
            inflight: self.inflight.insert(
                call_series(name, ctx),
                prev_i64(self.inflight[call_series(name, ctx)]),
            ),
            ..self
        }
    }

    /// After the time of one call of `name` at `ctx` is observed.
    pub open spec fn observe(self, name: Seq<char>, ctx: Seq<char>) -> MetricsView {
        MetricsView {
            latency: self.latency.insert(
                call_series(name, ctx),
                next_u64(self.latency[call_series(name, ctx)]),
            ),
            ..self
        }
    }
}

impl MetricsView {
    /// After a whole call of `name` at `ctx` that did not fail: counted,
    /// entered, left and timed.
    pub open spec fn completed(self, name: Seq<char>, ctx: Seq<char>) -> MetricsView {
        self.record_call(name, ctx).enter(name, ctx).exit(name, ctx).observe(name, ctx)
    }

    /// After a whole call of `name` at `ctx` that failed with the text
    /// `err`: counted, entered, its failure counted, left and timed.
    pub open spec fn failed(self, name: Seq<char>, ctx: Seq<char>, err: Seq<char>) -> MetricsView {
        self.record_call(name, ctx).enter(name, ctx).record_error(name, ctx, err).exit(
            name,
            ctx,
        ).observe(name, ctx)
    }

    /// After a whole call of `name` at `ctx`: one that failed, where there
    /// is the text of a failure, and one that did not, where there is none.
    pub open spec fn finished(self, name: Seq<char>, ctx: Seq<char>, failure: Option<Seq<char>>) -> MetricsView {
        match failure {
            Some(err) => self.failed(name, ctx, err),
            None => self.completed(name, ctx),
        }
    }
}

/// Why gathered families were not encoded.
#[derive(Debug)]
pub enum GatherError {
    /// A family is of a kind that the text encoder does not write.
    Unsupported(FamilyKind),
    /// The encoder refused the families.
    Encode(prometheus::Error),
}

/// What gathering and encoding comes to for given families. Where the
/// encoder writes every one of them, the outcome is their text exposition,
/// or the encoder's refusal. Where it does not, the kind of a family that
/// it does not write is handed back.
pub open spec fn gathers(
    families: Seq<prometheus::proto::MetricFamily>,
    encoded: Result<Vec<u8>, GatherError>,
) -> bool {
    match encoded {
        Ok(text) => encodable(families) && text_exposition(families) == Some(text@),
        Err(GatherError::Encode(_)) => encodable(families) && text_exposition(families) is None,
        Err(GatherError::Unsupported(kind)) => !kind.spec_encoded() && exists|i: int|
            0 <= i < families.len() && family_kind(#[trigger] families[i]) == kind,
    }
}

/// The step of setting up the metrics that failed.
#[derive(Debug)]
pub enum SetupError {
    /// The registry was not made.
    Registry(prometheus::Error),
    /// The collector of the process's own figures was not registered.
    ProcessCollector(prometheus::Error),
    /// A family was not made.
    Family(prometheus::Error),
    /// A family was not registered.
    Registration(prometheus::Error),
}

/// The registry and the four families of series.
pub struct Metrics {
    registry: prometheus::Registry,
    calls: CounterFamily,
    errors: CounterFamily,
    latency: HistogramFamily,
    inflight: GaugeFamily,
}

impl View for Metrics {
    type V = MetricsView;

    closed spec fn view(&self) -> MetricsView {
        MetricsView {
            registry: registry_view(self.registry),
            calls: counter_slots(self.calls),
            errors: counter_slots(self.errors),
            latency: histogram_counts(self.latency),
            inflight: gauge_slots(self.inflight),
        }
    }
}

/// A started timer: the series that the time goes to, and when it started.
pub struct Timer {
    name: String,
    ctx: String,
    started: Instant,
}

impl Timer {
    /// The name of the function that is timed.
    pub closed spec fn name(&self) -> Seq<char> {
        self.name@
    }

    /// The label of the call site that is timed.
    pub closed spec fn ctx(&self) -> Seq<char> {
        self.ctx@
    }
}

impl Metrics {
    #[verifier::type_invariant]
    spec fn labelled(self) -> bool {
        &&& counter_width(self.calls) == 3
        &&& counter_width(self.errors) == 4
        &&& histogram_width(self.latency) == 3
        &&& gauge_width(self.inflight) == 3
    }

    /// Sets up the metrics: a registry with an optional prefix for every
    /// metric name and optional labels for every series (of a label that is
    /// given more than once, the last value), the collector of
    /// the process's own figures, and the four families, each registered.
    /// Whatever fails is handed back with the step it failed at. The first
    /// step fails for an empty prefix and for nothing else. After it the
    /// setup succeeds, unless `prometheus` takes two of the descriptors or
    /// collectors for the same, which it does where their hashes are the
    /// same. Metrics that are set up hold the prefix, the labels, the
    /// collector of the process's own figures and the four families, and
    /// have no series yet.
    pub fn new(prefix: Option<String>, labels: Option<Vec<(String, String)>>) -> (made: Result<
        Metrics,
        SetupError,
    >)
        ensures
            made is Ok <==> !(prefix matches Some(text) && text@.len() == 0)
                && descriptors_apart(),
            made matches Ok(metrics) ==> metrics@ == MetricsView::fresh(
                prefix_text(prefix),
                labels_settled(labels),
            ),
            (prefix matches Some(text) && text@.len() == 0) <==> made matches Err(
                SetupError::Registry(_),
            ),
    {
        let labels = match labels {
            Some(pairs) => Some(settle_labels(pairs)),
            None => None,
        };
        let mut registry = match registry_new_custom(prefix, labels) {
            Ok(registry) => registry,
            Err(error) => {
                return Err(SetupError::Registry(error));
            },
        };
        match register_default_process_collector(&mut registry) {
            Ok(()) => {},
            Err(error) => {
                return Err(SetupError::ProcessCollector(error));
            },
        }
        proof {
            reveal_strlit("type");
            reveal_strlit("name");
            reveal_strlit("ctx");
            reveal_strlit("err");
            reveal_strlit("le");
        }
        let call_labels = ["type", "name", "ctx"];
        let error_labels = ["type", "name", "ctx", "err"];
        proof {
            lemma_descriptors_valid();
            assert(label_texts(call_labels@) =~= calls_descriptor().labels);
            assert(label_texts(error_labels@) =~= errors_descriptor().labels);
            lemma_parts_read_back(
                calls_descriptor().name,
                calls_descriptor().help,
                calls_descriptor().labels,
            );
            lemma_parts_read_back(
                errors_descriptor().name,
                errors_descriptor().help,
                errors_descriptor().labels,
            );
            lemma_parts_read_back(
                latency_descriptor().name,
                latency_descriptor().help,
                latency_descriptor().labels,
            );
            lemma_parts_read_back(
                inflight_descriptor().name,
                inflight_descriptor().help,
                inflight_descriptor().labels,
            );
        }
        let calls = match counter_family_new(
            "function_called_total",
            "Number of times a function was called",
            &call_labels,
        ) {
            Ok(family) => family,
            Err(error) => {
                return Err(SetupError::Family(error));
            },
        };
        let errors = match counter_family_new(
            "function_error_total",
            "Number of times the result of a function was an error",
            &error_labels,
        ) {
            Ok(family) => family,
            Err(error) => {
                return Err(SetupError::Family(error));
            },
        };
        assert forall|i: int| 0 <= i < call_labels@.len() implies (#[trigger] call_labels@[i])@
            != "le"@ by {
            assert("le"@.len() == 2);
            assert(call_labels@[0]@.len() == 4);
            assert(call_labels@[1]@.len() == 4);
            assert(call_labels@[2]@.len() == 3);
        }
        let latency = match histogram_family_new(
            "function_time_seconds",
            "Histogram of function call times observed",
            &call_labels,
        ) {
            Ok(family) => family,
            Err(error) => {
                return Err(SetupError::Family(error));
            },
        };
        let inflight = match gauge_family_new(
            "function_calls_inflight_total",
            "Number of function calls currently in flight",
            &call_labels,
        ) {
            Ok(family) => family,
            Err(error) => {
                return Err(SetupError::Family(error));
            },
        };
        match register_counter_family(&mut registry, &calls) {
            Ok(()) => {},
            Err(error) => {
                return Err(SetupError::Registration(error));
            },
        }
        match register_counter_family(&mut registry, &errors) {
            Ok(()) => {},
            Err(error) => {
                return Err(SetupError::Registration(error));
            },
        }
        match register_histogram_family(&mut registry, &latency) {
            Ok(()) => {},
            Err(error) => {
                return Err(SetupError::Registration(error));
            },
        }
        match register_gauge_family(&mut registry, &inflight) {
            Ok(()) => {},
            Err(error) => {
                return Err(SetupError::Registration(error));
            },
        }
        Ok(Metrics { registry, calls, errors, latency, inflight })
    }

    /// The content type of the text that `gather_text` encodes.
    pub fn content_type(&self) -> (format: String)
        ensures
            format@ == "text/plain; version=0.0.4"@,
    {
        text_format_type()
    }

    /// Gathers every registered collector and encodes what they report as
    /// text. Which families are gathered, and what they hold, depends on the
    /// running process; the six of the process's own figures are always
    /// among them. A family of a kind that the encoder does not write is
    /// refused before the encoder is called. Otherwise the outcome is the
    /// encoder's on the families gathered: their text exposition, or the
    /// encoder's failure where it refuses them.
    pub fn gather_text(&self) -> (encoded: Result<Vec<u8>, GatherError>)
        ensures
            exists|families: Seq<prometheus::proto::MetricFamily>|
                gathered(self@.registry, families) && #[trigger] gathers(families, encoded),
    {
        let families = registry_gather(&self.registry);
        assert(gathered(self@.registry, families@));
        let mut i: usize = 0;
        while i < families.len()
            invariant
                i <= families.len(),
                gathered(self@.registry, families@),
                forall|k: int| 0 <= k < i ==> family_kind(#[trigger] families@[k]).spec_encoded(),
            decreases families.len() - i,
        {
            let kind = kind_of(&families[i]);
            if !kind.encoded() {
                let refused = Err(GatherError::Unsupported(kind));
                assert(family_kind(families@[i as int]) == kind);
                assert(gathers(families@, refused));
                return refused;
            }
            i += 1;
        }
        let encoded = match encode_text(&families) {
            Ok(text) => Ok(text),
            Err(error) => Err(GatherError::Encode(error)),
        };
        assert(gathers(families@, encoded));
        encoded
    }
}

/// Counts one more call of `name` at `ctx`. Never fails: a series that is
/// not there yet is made on first use.
pub fn inc_called_counter_for(metrics: &mut Metrics, name: &str, ctx: &str)
    ensures
        final(metrics)@ == old(metrics)@.record_call(name@, ctx@),
{
    proof {
        use_type_invariant(&*metrics);
    }
    let values = ["func_call", name, ctx];
    assert(label_texts(values@) == seq![call_kind(), name@, ctx@]);
    counter_family_inc(&mut metrics.calls, &values);
}

/// Counts one more failure of `name` at `ctx`, under the failure's text.
pub fn inc_error_counter_for(metrics: &mut Metrics, name: &str, ctx: &str, err: String)
    ensures
        final(metrics)@ == old(metrics)@.record_error(name@, ctx@, err@),
{
    proof {
        use_type_invariant(&*metrics);
    }
    let values = ["func_call", name, ctx, err.as_str()];
    assert(label_texts(values@) == seq![call_kind(), name@, ctx@, err@]);
    counter_family_inc(&mut metrics.errors, &values);
}

/// Starts a timer for a call of `name` at `ctx`. The series that takes the
/// time is made, if it is not there yet; it takes no observation before the
/// timer is handed to `observe_timer`.
pub fn get_timer_for(metrics: &mut Metrics, name: &str, ctx: &str) -> (timer: Timer)
    ensures
        final(metrics)@ == old(metrics)@,
        timer.name() == name@,
        timer.ctx() == ctx@,
{
    proof {
        use_type_invariant(&*metrics);
    }
    let values = ["func_call", name, ctx];
    histogram_family_touch(&mut metrics.latency, &values);
    Timer { name: name.to_owned(), ctx: ctx.to_owned(), started: instant_now() }
}

/// Observes the time since a timer was started, in the series that the
/// timer was started for. A timer is used up by this: it is observed once.
pub fn observe_timer(metrics: &mut Metrics, timer: Timer)
    ensures
        final(metrics)@ == old(metrics)@.observe(timer.name(), timer.ctx()),
{
    proof {
        use_type_invariant(&*metrics);
    }
    let elapsed = instant_elapsed(&timer.started);
    let values = ["func_call", timer.name.as_str(), timer.ctx.as_str()];
    assert(label_texts(values@) == seq![call_kind(), timer.name@, timer.ctx@]);
    histogram_family_observe(&mut metrics.latency, &values, elapsed);
}

/// Marks a call of `name` at `ctx` as in flight.
pub fn inc_inflight_for(metrics: &mut Metrics, name: &str, ctx: &str)
    ensures
        final(metrics)@ == old(metrics)@.enter(name@, ctx@),
{
    proof {
        use_type_invariant(&*metrics);
    }
    let values = ["func_call", name, ctx];
    assert(label_texts(values@) == seq![call_kind(), name@, ctx@]);
    gauge_family_inc(&mut metrics.inflight, &values);
}

/// Marks a call of `name` at `ctx` as no longer in flight.
pub fn dec_inflight_for(metrics: &mut Metrics, name: &str, ctx: &str)
    ensures
        final(metrics)@ == old(metrics)@.exit(name@, ctx@),
{
    proof {
        use_type_invariant(&*metrics);
    }
    let values = ["func_call", name, ctx];
    assert(label_texts(values@) == seq![call_kind(), name@, ctx@]);
    gauge_family_dec(&mut metrics.inflight, &values);
}

/// Registers a collector of the caller's own with the registry, so that
/// what it reports is gathered with the four families: `Registry::register`
/// of `prometheus`. The registry refuses a collector whose metrics collide
/// with registered ones; only it can tell, for only the collector knows its
/// descriptors. The four families stand as they stood, and whatever was
/// registered stays registered; a registry that refuses the collector has
/// registered nothing more than before. The collector's own code runs
/// inside the call.
#[verifier::external_body]
pub fn register<C: prometheus::core::Collector + 'static>(metrics: &mut Metrics, c: C) -> (done:
    Result<(), prometheus::Error>)
    ensures
        final(metrics)@.calls == old(metrics)@.calls,
        final(metrics)@.errors == old(metrics)@.errors,
        final(metrics)@.latency == old(metrics)@.latency,
        final(metrics)@.inflight == old(metrics)@.inflight,
        old(metrics)@.registry.kept_by(final(metrics)@.registry),
        done is Err ==> refused(old(metrics)@.registry, final(metrics)@.registry),
{
    metrics.registry.register(Box::new(c))
}

/// The `{:?}` text of a value: `format!` of std with the value's own
/// `Debug`. Nothing is promised of the text: it is what the value's type
/// makes of it.
#[verifier::external_body]
fn debug_text<E: Debug>(value: &E) -> (text: String) {
    format!("{:?}", value)
}

/// Opens a call of `name` at `ctx`: counts it, marks it as in flight and
/// starts its timer, in this order.
pub fn begin_call(metrics: &mut Metrics, name: &str, ctx: &str) -> (timer: Timer)
    ensures
        final(metrics)@ == old(metrics)@.record_call(name@, ctx@).enter(name@, ctx@),
        timer.name() == name@,
        timer.ctx() == ctx@,
{
    inc_called_counter_for(metrics, name, ctx);
    inc_inflight_for(metrics, name, ctx);
    get_timer_for(metrics, name, ctx)
}

/// Closes a call that `begin_call` opened: counts its failure under the
/// failure's text, if it failed, marks it as no longer in flight, and
/// observes its time.
pub fn end_call(metrics: &mut Metrics, timer: Timer, failure: Option<String>)
    ensures
        final(metrics)@ == match failure {
            Some(err) => old(metrics)@.record_error(timer.name(), timer.ctx(), err@).exit(
                timer.name(),
                timer.ctx(),
            ).observe(timer.name(), timer.ctx()),
            None => old(metrics)@.exit(timer.name(), timer.ctx()).observe(
                timer.name(),
                timer.ctx(),
            ),
        },
{
    let name = timer.name.clone();
    let ctx = timer.ctx.clone();
    match failure {
        Some(err) => {
            inc_error_counter_for(metrics, name.as_str(), ctx.as_str(), err);
        },
        None => {},
    }
    dec_inflight_for(metrics, name.as_str(), ctx.as_str());
    observe_timer(metrics, timer);
}

/// Runs `body` as one call of `name` at `ctx`, for a function that cannot
/// fail. The call is counted, marked as in flight and timed before `body`
/// runs; when it has run, the call leaves flight and its time is observed.
/// What `body` returns is handed on as it is.
pub fn call_infallible<T, F: FnOnce() -> T>(
    metrics: &mut Metrics,
    name: &str,
    ctx: &str,
    body: F,
) -> (result: T)
    requires
        body.requires(()),
    ensures
        body.ensures((), result),
        final(metrics)@ == old(metrics)@.completed(name@, ctx@),
{
    let timer = begin_call(metrics, name, ctx);
    let result = body();
    end_call(metrics, timer, None);
    result
}

/// Runs `body` as one call of `name` at `ctx`, for a function that can
/// fail. A success is handed on as it is, and no failure is counted. A
/// failure is counted under its `{:?}` text and handed on as it is.
pub fn call_fallible<T, E: Debug, F: FnOnce() -> Result<T, E>>(
    metrics: &mut Metrics,
    name: &str,
    ctx: &str,
    body: F,
) -> (result: Result<T, E>)
    requires
        body.requires(()),
    ensures
        body.ensures((), result),
        result is Ok ==> final(metrics)@ == old(metrics)@.completed(name@, ctx@),
        result is Err ==> exists|err: Seq<char>|
            final(metrics)@ == #[trigger] old(metrics)@.failed(name@, ctx@, err),
{
    let timer = begin_call(metrics, name, ctx);
    let result = body();
    match &result {
        Ok(_) => {
            end_call(metrics, timer, None);
        },
        Err(error) => {
            let text = debug_text(error);
            let ghost err = text@;
            end_call(metrics, timer, Some(text));
            assert(metrics@ == old(metrics)@.failed(name@, ctx@, err));
        },
    }
    result
}

/// A call changes nothing but the series that it is about: the registry
/// holds what it held, the other series of calls, of calls in flight and
/// of times stand as they stood, and so does every count of failures where
/// the call did not fail.
pub proof fn lemma_call_framed(
    before: MetricsView,
    name: Seq<char>,
    ctx: Seq<char>,
    failure: Option<Seq<char>>,
    slot: u64,
)
    ensures
        before.finished(name, ctx, failure).registry == before.registry,
        slot != call_series(name, ctx) ==> {
            &&& before.finished(name, ctx, failure).calls[slot] == before.calls[slot]
            &&& before.finished(name, ctx, failure).inflight[slot] == before.inflight[slot]
            &&& before.finished(name, ctx, failure).latency[slot] == before.latency[slot]
        },
        failure is None ==> before.finished(name, ctx, failure).errors == before.errors,
        failure matches Some(err) && slot != error_series(name, ctx, err) ==> before.finished(
            name,
            ctx,
            failure,
        ).errors[slot] == before.errors[slot],
{
}

/// Every call, failed or not, is counted once: the count of calls of its
/// series goes up by exactly one. The one count that cannot go up is the
/// largest that the counter holds.
pub proof fn lemma_call_counted(
    before: MetricsView,
    name: Seq<char>,
    ctx: Seq<char>,
    failure: Option<Seq<char>>,
)
    requires
        before.calls[call_series(name, ctx)] < i64::MAX,
    ensures
        before.finished(name, ctx, failure).calls[call_series(name, ctx)] == before.calls[call_series(
            name,
            ctx,
        )] + 1,
{
}

/// A call that does not fail leaves every count of failures as it was; a
/// call that fails counts one more failure under the failure's text, and
/// no other.
pub proof fn lemma_failure_counted(
    before: MetricsView,
    name: Seq<char>,
    ctx: Seq<char>,
    err: Seq<char>,
)
    requires
        before.errors[error_series(name, ctx, err)] < i64::MAX,
    ensures
        before.completed(name, ctx).errors == before.errors,
        before.failed(name, ctx, err).errors[error_series(name, ctx, err)]
            == before.errors[error_series(name, ctx, err)] + 1,
{
}

/// After every call, failed or not, as many calls are in flight as before
/// it, in every series.
pub proof fn lemma_inflight_restored(
    before: MetricsView,
    name: Seq<char>,
    ctx: Seq<char>,
    failure: Option<Seq<char>>,
    slot: u64,
)
    ensures
        before.finished(name, ctx, failure).inflight[slot] == before.inflight[slot],
{
}

/// Where no series of calls in flight is negative before a call, none is
/// while the call runs, and none is after it. The one gauge that cannot go
/// up is at the largest value that it holds.
pub proof fn lemma_inflight_not_negative(
    before: MetricsView,
    name: Seq<char>,
    ctx: Seq<char>,
    failure: Option<Seq<char>>,
    slot: u64,
)
    requires
        forall|other: u64| before.inflight[other] >= 0,
        before.inflight[call_series(name, ctx)] < i64::MAX,
    ensures
        before.record_call(name, ctx).enter(name, ctx).inflight[slot] >= 0,
        before.record_call(name, ctx).enter(name, ctx).inflight[call_series(name, ctx)] > 0,
        before.finished(name, ctx, failure).inflight[slot] >= 0,
{
}

/// Every call, failed or not, has its time observed exactly once, in its
/// own series. The one count that cannot go up is the largest that the
/// histogram holds.
pub proof fn lemma_call_observed_once(
    before: MetricsView,
    name: Seq<char>,
    ctx: Seq<char>,
    failure: Option<Seq<char>>,
)
    requires
        before.latency[call_series(name, ctx)] < u64::MAX,
    ensures
        before.finished(name, ctx, failure).latency[call_series(name, ctx)]
            == before.latency[call_series(name, ctx)] + 1,
{
}

} // verus!
