use oak_utils::metrics::{
    measurements, round_up_to_one, Instrument, MetricEvent, Metrics, RequestMetricName,
    SealedMemoryRequest,
};

fn view(event: MetricEvent) -> Vec<(Instrument, u64, Option<String>)> {
    measurements(&event).into_iter().map(|m| (m.instrument, m.value, m.request_type)).collect()
}

#[test]
fn request_metric_names() {
    assert_eq!(RequestMetricName::total().to_value(), "total");
    assert_eq!(RequestMetricName::handshake().to_value(), "Handshake");
    assert_eq!(
        RequestMetricName::new_sealed_memory_request(&SealedMemoryRequest::AddMemoryRequest)
            .to_value(),
        "AddMemoryRequest"
    );
    assert_eq!(
        RequestMetricName::new_sealed_memory_request(&SealedMemoryRequest::GetMemoryByIdRequest)
            .to_value(),
        "GetMemoryByIdRequest"
    );
}

#[test]
fn latency_is_rounded_up_and_recorded_for_total() {
    let name = RequestMetricName::new_sealed_memory_request(&SealedMemoryRequest::KeySyncRequest);
    assert_eq!(
        view(MetricEvent::Latency(0, name.clone())),
        vec![
            (Instrument::RpcLatency, 1, Some("KeySyncRequest".to_string())),
            (Instrument::RpcLatency, 1, Some("total".to_string())),
        ]
    );
    assert_eq!(
        view(MetricEvent::Latency(250, name)),
        vec![
            (Instrument::RpcLatency, 250, Some("KeySyncRequest".to_string())),
            (Instrument::RpcLatency, 250, Some("total".to_string())),
        ]
    );
}

#[test]
fn requests_and_failures_count_one() {
    assert_eq!(
        view(MetricEvent::Request(RequestMetricName::handshake())),
        vec![(Instrument::RpcCount, 1, Some("Handshake".to_string()))]
    );
    assert_eq!(
        view(MetricEvent::Failure(RequestMetricName::total())),
        vec![(Instrument::RpcFailureCount, 1, Some("total".to_string()))]
    );
}

#[test]
fn database_speeds_share_label() {
    assert_eq!(
        view(MetricEvent::DbSaveSpeed(0)),
        vec![(Instrument::RpcLatency, 1, Some("db_save_kb_per_ms".to_string()))]
    );
    assert_eq!(
        view(MetricEvent::DbLoadSpeed(9)),
        vec![(Instrument::RpcLatency, 9, Some("db_save_kb_per_ms".to_string()))]
    );
}

#[test]
fn database_measurements_are_unlabelled() {
    assert_eq!(view(MetricEvent::DbSize(0)), vec![(Instrument::DbSize, 0, None)]);
    assert_eq!(view(MetricEvent::DbInitLatency(5)), vec![(Instrument::DbInitLatency, 5, None)]);
    assert_eq!(
        view(MetricEvent::DbPersistLatency(6)),
        vec![(Instrument::DbPersistLatency, 6, None)]
    );
    assert_eq!(view(MetricEvent::DbConnectRetry), vec![(Instrument::DbConnectRetries, 1, None)]);
    assert_eq!(view(MetricEvent::DbPersistFailure), vec![(Instrument::DbPersistFailures, 1, None)]);
    assert_eq!(
        view(MetricEvent::DbPersistQueueSize(3)),
        vec![(Instrument::DbPersistQueueSize, 3, None)]
    );
}

#[test]
fn registration_starts_every_series() {
    let ms = view(MetricEvent::Registration);
    assert_eq!(ms.len(), 9);
    assert_eq!(ms[0], (Instrument::RpcCount, 0, Some("total".to_string())));
    assert_eq!(ms[2], (Instrument::RpcLatency, 1, Some("test".to_string())));
    assert_eq!(ms[8], (Instrument::DbPersistQueueSize, 0, None));
}

#[test]
fn round_up() {
    assert_eq!(round_up_to_one(0), 1);
    assert_eq!(round_up_to_one(1), 1);
    assert_eq!(round_up_to_one(u64::MAX), u64::MAX);
}

#[test]
fn metrics_record_on_a_meter() {
    let meter = opentelemetry::global::meter("sealed_memory_service");
    let mut metrics = Metrics::new(&meter).expect("the no-op meter creates every instrument");
    metrics.inc_requests(RequestMetricName::total());
    metrics.inc_failures(RequestMetricName::handshake());
    metrics.record_latency(0, RequestMetricName::total());
    metrics.record_db_save_speed(3);
    metrics.record_db_load_speed(4);
    metrics.record_db_size(1024);
    metrics.record_db_init_latency(2);
    metrics.record_db_persist_latency(2);
    metrics.inc_db_connect_retries();
    metrics.inc_db_persist_failures();
    metrics.record_db_persist_queue_size(7);
}
