use instrumented_core::exporter::{metrics_response, not_found, respond};
use instrumented_core::labels::{parse_labels, settle_labels};
use instrumented_core::metrics::{
    begin_call, call_fallible, call_infallible, dec_inflight_for, end_call, get_timer_for,
    inc_called_counter_for, inc_error_counter_for, inc_inflight_for, observe_timer, register,
    FamilyKind, GatherError, Metrics, SetupError,
};
use instrumented_core::prometheus;
use std::time::{Duration, Instant};

#[derive(Debug)]
pub struct MyError;

fn metrics() -> Metrics {
    Metrics::new(None, None).unwrap()
}

fn scrape(metrics: &Metrics) -> String {
    let response = respond(metrics, "/metrics").unwrap();
    assert_eq!(response.status, 200);
    String::from_utf8(response.body).unwrap()
}

/// The value of the sample with the given name and labels, if the text has it.
fn sample(text: &str, series: &str) -> Option<f64> {
    text.lines()
        .find(|line| line.starts_with(series) && line[series.len()..].starts_with(' '))
        .map(|line| line[series.len() + 1..].trim().parse().unwrap())
}

fn calls(name: &str, ctx: &str) -> String {
    format!("function_called_total{{ctx=\"{}\",name=\"{}\",type=\"func_call\"}}", ctx, name)
}

fn errors(name: &str, ctx: &str, err: &str) -> String {
    format!(
        "function_error_total{{ctx=\"{}\",err=\"{}\",name=\"{}\",type=\"func_call\"}}",
        ctx, err, name
    )
}

fn inflight(name: &str, ctx: &str) -> String {
    format!("function_calls_inflight_total{{ctx=\"{}\",name=\"{}\",type=\"func_call\"}}", ctx, name)
}

fn observations(name: &str, ctx: &str) -> String {
    format!("function_time_seconds_count{{ctx=\"{}\",name=\"{}\",type=\"func_call\"}}", ctx, name)
}

fn seconds(name: &str, ctx: &str) -> String {
    format!("function_time_seconds_sum{{ctx=\"{}\",name=\"{}\",type=\"func_call\"}}", ctx, name)
}

fn pairs(items: &[(&str, &str)]) -> Vec<(String, String)> {
    items.iter().map(|(label, value)| (label.to_string(), value.to_string())).collect()
}

#[test]
fn labels_are_read() {
    assert_eq!(
        parse_labels("app=myapp,env=prod,region=us"),
        pairs(&[("app", "myapp"), ("env", "prod"), ("region", "us")])
    );
    assert_eq!(parse_labels("label1=value1"), pairs(&[("label1", "value1")]));
}

#[test]
fn malformed_labels_are_dropped() {
    assert_eq!(parse_labels(""), pairs(&[]));
    assert_eq!(parse_labels("app"), pairs(&[]));
    assert_eq!(parse_labels(",,"), pairs(&[]));
    assert_eq!(parse_labels("a,b=c,d"), pairs(&[("b", "c")]));
    assert_eq!(parse_labels("a=b,"), pairs(&[("a", "b")]));
}

#[test]
fn labels_are_cut_at_the_first_equals_sign() {
    assert_eq!(parse_labels("a=b=c"), pairs(&[("a", "b=c")]));
    assert_eq!(parse_labels("=v,k="), pairs(&[("", "v"), ("k", "")]));
    assert_eq!(parse_labels("="), pairs(&[("", "")]));
    assert_eq!(parse_labels("a=1,a=2"), pairs(&[("a", "1"), ("a", "2")]));
}

#[test]
fn last_value_of_a_label_stands() {
    assert_eq!(settle_labels(pairs(&[])), pairs(&[]));
    assert_eq!(settle_labels(pairs(&[("a", "1")])), pairs(&[("a", "1")]));
    assert_eq!(settle_labels(pairs(&[("a", "1"), ("a", "2")])), pairs(&[("a", "2")]));
    assert_eq!(
        settle_labels(pairs(&[("a", "1"), ("b", "2"), ("a", "3"), ("c", "4"), ("b", "5")])),
        pairs(&[("a", "3"), ("c", "4"), ("b", "5")])
    );
    assert_eq!(settle_labels(parse_labels("env=dev,region=us,env=prod")), pairs(&[("region", "us"), ("env", "prod")]));
}

#[test]
fn repeated_label_reaches_the_series_once() {
    let labels = parse_labels("env=dev,env=prod");
    let mut metrics = Metrics::new(None, Some(labels)).unwrap();
    inc_called_counter_for(&mut metrics, "f", "default");
    let text = scrape(&metrics);
    let line = text.lines().find(|line| line.starts_with("function_called_total{")).unwrap();
    assert!(line.contains("env=\"prod\""));
    assert!(!line.contains("env=\"dev\""));
}

#[test]
fn empty_prefix_is_refused() {
    assert!(matches!(Metrics::new(Some(String::new()), None), Err(SetupError::Registry(_))));
}

#[test]
fn fresh_metrics_have_no_series() {
    let metrics = metrics();
    let text = scrape(&metrics);
    assert!(!text.contains("function_called_total"));
    assert!(!text.contains("function_error_total"));
    assert!(!text.contains("function_time_seconds"));
    assert!(!text.contains("function_calls_inflight_total"));
}

#[test]
fn each_call_is_counted_once() {
    let mut metrics = metrics();
    inc_called_counter_for(&mut metrics, "f", "default");
    assert_eq!(sample(&scrape(&metrics), &calls("f", "default")), Some(1.0));
    inc_called_counter_for(&mut metrics, "f", "default");
    inc_called_counter_for(&mut metrics, "f", "other");
    inc_called_counter_for(&mut metrics, "g", "default");
    let text = scrape(&metrics);
    assert_eq!(sample(&text, &calls("f", "default")), Some(2.0));
    assert_eq!(sample(&text, &calls("f", "other")), Some(1.0));
    assert_eq!(sample(&text, &calls("g", "default")), Some(1.0));
    assert!(!text.contains("function_error_total"));
}

#[test]
fn failures_are_counted_by_their_text() {
    let mut metrics = metrics();
    inc_error_counter_for(&mut metrics, "f", "default", "MyError".to_string());
    inc_error_counter_for(&mut metrics, "f", "default", "MyError".to_string());
    inc_error_counter_for(&mut metrics, "f", "default", "Other".to_string());
    let text = scrape(&metrics);
    assert_eq!(sample(&text, &errors("f", "default", "MyError")), Some(2.0));
    assert_eq!(sample(&text, &errors("f", "default", "Other")), Some(1.0));
    assert!(!text.contains("function_called_total"));
}

#[test]
fn inflight_goes_up_and_down() {
    let mut metrics = metrics();
    inc_inflight_for(&mut metrics, "f", "default");
    assert_eq!(sample(&scrape(&metrics), &inflight("f", "default")), Some(1.0));
    inc_inflight_for(&mut metrics, "f", "default");
    assert_eq!(sample(&scrape(&metrics), &inflight("f", "default")), Some(2.0));
    dec_inflight_for(&mut metrics, "f", "default");
    dec_inflight_for(&mut metrics, "f", "default");
    assert_eq!(sample(&scrape(&metrics), &inflight("f", "default")), Some(0.0));
}

#[test]
fn timer_is_observed_once() {
    let mut metrics = metrics();
    let timer = get_timer_for(&mut metrics, "f", "default");
    let text = scrape(&metrics);
    assert_eq!(sample(&text, &observations("f", "default")), Some(0.0));
    assert_eq!(sample(&text, &seconds("f", "default")), Some(0.0));
    observe_timer(&mut metrics, timer);
    let text = scrape(&metrics);
    assert_eq!(sample(&text, &observations("f", "default")), Some(1.0));
    assert!(sample(&text, &seconds("f", "default")).unwrap() >= 0.0);
}

#[test]
fn observed_time_covers_the_delay() {
    let mut metrics = metrics();
    let returned = call_infallible(&mut metrics, "slow", "default", || {
        let started = Instant::now();
        while started.elapsed() < Duration::from_millis(10) {}
        7
    });
    assert_eq!(returned, 7);
    let text = scrape(&metrics);
    assert_eq!(sample(&text, &observations("slow", "default")), Some(1.0));
    assert!(sample(&text, &seconds("slow", "default")).unwrap() >= 0.010);
}

#[test]
fn infallible_call_is_counted_and_leaves_flight() {
    let mut metrics = metrics();
    inc_inflight_for(&mut metrics, "f", "special");
    for round in 1..=3 {
        let returned = call_infallible(&mut metrics, "f", "special", || "value");
        assert_eq!(returned, "value");
        let text = scrape(&metrics);
        assert_eq!(sample(&text, &calls("f", "special")), Some(f64::from(round)));
        assert_eq!(sample(&text, &inflight("f", "special")), Some(1.0));
        assert_eq!(sample(&text, &observations("f", "special")), Some(f64::from(round)));
    }
    assert!(!scrape(&metrics).contains("function_error_total"));
}

#[test]
fn call_is_in_flight_while_it_runs() {
    let mut metrics = metrics();
    let timer = begin_call(&mut metrics, "f", "default");
    let text = scrape(&metrics);
    assert_eq!(sample(&text, &calls("f", "default")), Some(1.0));
    assert_eq!(sample(&text, &inflight("f", "default")), Some(1.0));
    assert_eq!(sample(&text, &observations("f", "default")), Some(0.0));
    end_call(&mut metrics, timer, Some("Broken".to_string()));
    let text = scrape(&metrics);
    assert_eq!(sample(&text, &calls("f", "default")), Some(1.0));
    assert_eq!(sample(&text, &inflight("f", "default")), Some(0.0));
    assert_eq!(sample(&text, &observations("f", "default")), Some(1.0));
    assert_eq!(sample(&text, &errors("f", "default", "Broken")), Some(1.0));
}

#[test]
fn success_and_failure_of_a_fallible_function() {
    let mut metrics = metrics();
    let first: Result<String, MyError> =
        call_fallible(&mut metrics, "f", "default", || Ok("x".to_string()));
    assert_eq!(first.unwrap(), "x");
    let text = scrape(&metrics);
    assert_eq!(sample(&text, &calls("f", "default")), Some(1.0));
    assert!(!text.contains("function_error_total"));

    let second: Result<String, MyError> = call_fallible(&mut metrics, "f", "default", || Err(MyError));
    assert!(matches!(second, Err(MyError)));
    let text = scrape(&metrics);
    assert_eq!(sample(&text, &calls("f", "default")), Some(2.0));
    assert_eq!(sample(&text, &errors("f", "default", "MyError")), Some(1.0));
    assert_eq!(sample(&text, &inflight("f", "default")), Some(0.0));
    assert_eq!(sample(&text, &observations("f", "default")), Some(2.0));
}

#[test]
fn failure_is_handed_on_unchanged() {
    let mut metrics = metrics();
    let outcome: Result<u8, (u8, &str)> =
        call_fallible(&mut metrics, "f", "default", || Err((3, "why")));
    assert_eq!(outcome, Err((3, "why")));
    let text = scrape(&metrics);
    assert_eq!(sample(&text, &errors("f", "default", "(3, \\\"why\\\")")), Some(1.0));
}

#[test]
fn scrape_endpoint() {
    let mut metrics = metrics();
    let _: Result<String, MyError> = call_fallible(&mut metrics, "f", "default", || Ok("x".to_string()));
    let _: Result<String, MyError> = call_fallible(&mut metrics, "f", "default", || Err(MyError));
    let response = respond(&metrics, "/metrics").unwrap();
    assert_eq!(response.status, 200);
    assert_eq!(response.content_type.as_deref(), Some("text/plain; version=0.0.4"));
    let body = String::from_utf8(response.body).unwrap();
    assert!(body.contains("# TYPE function_called_total counter"));
    assert!(body.contains("# TYPE function_error_total counter"));
    assert!(body.contains("# TYPE function_time_seconds histogram"));
    assert!(body.contains("# TYPE function_calls_inflight_total gauge"));
    assert!(body.contains(&format!("{} 2\n", calls("f", "default"))));
    assert!(body.contains(&format!("{} 1\n", errors("f", "default", "MyError"))));
    assert!(body.contains("process_cpu_seconds_total"));

    for path in ["/anything-else", "/", "", "/metrics/", "/Metrics", "metrics"] {
        let response = respond(&metrics, path).unwrap();
        assert_eq!(response.status, 404);
        assert_eq!(response.content_type, None);
        assert_eq!(response.body, b"Not found.");
    }
}

#[test]
fn gathered_text_and_its_content_type() {
    let mut metrics = metrics();
    assert_eq!(metrics.content_type(), "text/plain; version=0.0.4");
    inc_called_counter_for(&mut metrics, "f", "default");
    let text = String::from_utf8(metrics.gather_text().unwrap()).unwrap();
    assert!(text.contains("# HELP function_called_total Number of times a function was called\n"));
    assert_eq!(sample(&text, &calls("f", "default")), Some(1.0));
}

#[test]
fn responses_by_hand() {
    let missing = not_found();
    assert_eq!(missing.status, 404);
    assert_eq!(missing.content_type, None);
    assert_eq!(missing.body, b"Not found.");

    let served = metrics_response("text/plain".to_string(), Ok(b"a 1\n".to_vec())).unwrap();
    assert_eq!(served.status, 200);
    assert_eq!(served.content_type.as_deref(), Some("text/plain"));
    assert_eq!(served.body, b"a 1\n");

    let failure = GatherError::Encode(prometheus::Error::Msg("no metrics".to_string()));
    let refused = metrics_response("text/plain".to_string(), Err(failure)).unwrap_err();
    assert!(matches!(refused, GatherError::Encode(prometheus::Error::Msg(text)) if text == "no metrics"));
    let failure = GatherError::Unsupported(FamilyKind::Untyped);
    let refused = metrics_response("text/plain".to_string(), Err(failure)).unwrap_err();
    assert!(matches!(refused, GatherError::Unsupported(FamilyKind::Untyped)));
}

#[test]
fn prefix_and_labels_reach_every_series() {
    let labels = parse_labels("env=prod,nonsense,region=us");
    let mut metrics = Metrics::new(Some("myapp".to_string()), Some(labels)).unwrap();
    inc_called_counter_for(&mut metrics, "f", "default");
    let text = scrape(&metrics);
    let line = text.lines().find(|line| line.starts_with("myapp_function_called_total{")).unwrap();
    assert!(line.contains("env=\"prod\""));
    assert!(line.contains("region=\"us\""));
    assert!(line.contains("name=\"f\""));
    assert!(line.ends_with(" 1"));
}

#[test]
fn custom_collector_is_registered_once() {
    let mut metrics = metrics();
    let counter = prometheus::IntCounter::new("custom_counter", "My custom counter").unwrap();
    register(&mut metrics, counter.clone()).unwrap();
    counter.inc_by(10);
    inc_called_counter_for(&mut metrics, "f", "default");
    let text = scrape(&metrics);
    assert_eq!(sample(&text, "custom_counter"), Some(10.0));
    assert_eq!(sample(&text, &calls("f", "default")), Some(1.0));
    assert!(matches!(register(&mut metrics, counter), Err(prometheus::Error::Msg(_))));
    let clash = prometheus::IntCounter::new("function_called_total", "Another help").unwrap();
    assert!(register(&mut metrics, clash).is_err());
}

/// A collector of the caller's own that reports one family of a given kind.
struct Odd {
    desc: prometheus::core::Desc,
    kind: prometheus::proto::MetricType,
}

impl Odd {
    fn new(name: &str, kind: prometheus::proto::MetricType) -> Odd {
        let desc = prometheus::core::Desc::new(
            name.to_string(),
            "An odd family".to_string(),
            Vec::new(),
            std::collections::HashMap::new(),
        )
        .unwrap();
        Odd { desc, kind }
    }
}

impl prometheus::core::Collector for Odd {
    fn desc(&self) -> Vec<&prometheus::core::Desc> {
        vec![&self.desc]
    }

    fn collect(&self) -> Vec<prometheus::proto::MetricFamily> {
        let mut family = prometheus::proto::MetricFamily::default();
        family.set_name(self.desc.fq_name.clone());
        family.set_help(self.desc.help.clone());
        family.set_field_type(self.kind);
        family.mut_metric().push(prometheus::proto::Metric::default());
        vec![family]
    }
}

#[test]
fn family_kinds_that_the_encoder_writes() {
    assert!(FamilyKind::Counter.encoded());
    assert!(FamilyKind::Gauge.encoded());
    assert!(FamilyKind::Histogram.encoded());
    assert!(!FamilyKind::Summary.encoded());
    assert!(!FamilyKind::Untyped.encoded());
}

#[test]
fn family_of_another_kind_is_refused() {
    let mut metrics = metrics();
    register(&mut metrics, Odd::new("odd_summary", prometheus::proto::MetricType::SUMMARY)).unwrap();
    assert!(matches!(metrics.gather_text(), Err(GatherError::Unsupported(FamilyKind::Summary))));
    assert!(matches!(
        respond(&metrics, "/metrics"),
        Err(GatherError::Unsupported(FamilyKind::Summary))
    ));
    assert_eq!(respond(&metrics, "/other").unwrap().status, 404);

    let mut metrics = self::metrics();
    register(&mut metrics, Odd::new("odd_untyped", prometheus::proto::MetricType::UNTYPED)).unwrap();
    assert!(matches!(metrics.gather_text(), Err(GatherError::Unsupported(FamilyKind::Untyped))));

    let mut metrics = self::metrics();
    register(&mut metrics, Odd::new("odd_gauge", prometheus::proto::MetricType::GAUGE)).unwrap();
    let text = String::from_utf8(metrics.gather_text().unwrap()).unwrap();
    assert_eq!(sample(&text, "odd_gauge"), Some(0.0));
}

#[test]
fn process_figures_are_always_served() {
    let metrics = Metrics::new(Some("myapp".to_string()), None).unwrap();
    let text = scrape(&metrics);
    for name in [
        "process_cpu_seconds_total",
        "process_open_fds",
        "process_max_fds",
        "process_virtual_memory_bytes",
        "process_resident_memory_bytes",
        "process_start_time_seconds",
    ] {
        assert!(text.contains(&format!("# TYPE myapp_{} ", name)));
    }
    let text = scrape(&self::metrics());
    assert!(text.contains("# TYPE process_open_fds gauge"));
}

#[test]
fn setup_succeeds_for_every_other_prefix() {
    for prefix in [None, Some("a"), Some("my_app"), Some("x:y")] {
        assert!(Metrics::new(prefix.map(str::to_string), None).is_ok());
    }
    assert!(Metrics::new(None, Some(Vec::new())).is_ok());
}

#[test]
fn label_values_that_share_a_slot_share_a_series() {
    let mut metrics = metrics();
    inc_called_counter_for(&mut metrics, "ab", "c");
    inc_called_counter_for(&mut metrics, "a", "bc");
    let text = scrape(&metrics);
    assert_eq!(sample(&text, &calls("ab", "c")), Some(2.0));
    assert_eq!(sample(&text, &calls("a", "bc")), None);
}
