use vrl_state::metrics::{
    init, init_global, init_test, switch_enabled, Alias, Controller, Error, Progress,
    RecorderChoice, RecorderScope, Sample, Step, Switches,
};

const ON: Switches = Switches { core: true, tracing_layer: true };

fn sample(name: &str, kind: Option<&str>) -> Sample {
    Sample { name: name.to_string(), component_kind: kind.map(|k| k.to_string()) }
}

fn prepare_metrics(cardinality: usize) -> (Controller, Vec<Sample>) {
    let controller = Controller { scope: RecorderScope::ThreadLocal };
    let samples: Vec<Sample> = (0..cardinality).map(|_| sample("test", None)).collect();
    let capture = controller.capture_metrics(&samples);
    assert_eq!(samples.len() + capture.aliases.len() + 1, cardinality + 1);
    (controller, samples)
}

#[test]
fn cardinality_matches() {
    for cardinality in &[0, 1, 10, 100, 1000, 10000] {
        let (controller, samples) = prepare_metrics(*cardinality);
        let capture = controller.capture_metrics(&samples);
        assert_eq!(capture.cardinality, cardinality + 1);
    }
}

#[test]
fn snapshot_repeats_deprecated_names() {
    let controller = Controller { scope: RecorderScope::Global };
    let samples = vec![
        sample("component_sent_events_total", None),
        sample("other", Some("sink")),
        sample("component_sent_bytes_total", Some("sink")),
        sample("component_sent_bytes_total", Some("source")),
        sample("component_received_bytes_total", Some("source")),
        sample("component_received_bytes_total", Some("sink")),
        sample("component_received_bytes_total", None),
        sample("component_sent_events_total", Some("transform")),
    ];
    let capture = controller.capture_metrics(&samples);
    assert_eq!(
        capture.aliases,
        vec![
            (0, Alias::ProcessedEvents),
            (2, Alias::ProcessedBytes),
            (4, Alias::ProcessedBytes),
            (7, Alias::ProcessedEvents),
        ]
    );
    assert_eq!(capture.cardinality, 8 + 4 + 1);
}

#[test]
fn alias_rule_by_name_and_component_kind() {
    assert_eq!(sample("component_sent_events_total", None).alias(), Some(Alias::ProcessedEvents));
    assert_eq!(
        sample("component_sent_bytes_total", Some("sink")).alias(),
        Some(Alias::ProcessedBytes)
    );
    assert_eq!(sample("component_sent_bytes_total", None).alias(), None);
    assert_eq!(
        sample("component_received_bytes_total", Some("source")).alias(),
        Some(Alias::ProcessedBytes)
    );
    assert_eq!(sample("component_received_bytes_total", Some("sink")).alias(), None);
    assert_eq!(sample("processed_events_total", None).alias(), None);
    assert_eq!(Alias::ProcessedEvents.name(), "processed_events_total");
    assert_eq!(Alias::ProcessedBytes.name(), "processed_bytes_total");
}

#[test]
fn get_reports_a_missing_controller() {
    assert_eq!(Controller::get(None), Err(Error::NotInitialized));
    let controller = Controller { scope: RecorderScope::Global };
    assert_eq!(Controller::get(Some(&controller)), Ok(&controller));
}

#[test]
fn error_messages() {
    assert_eq!(Error::AlreadyInitialized.message(), "Recorder already initialized.");
    assert_eq!(Error::NotInitialized.message(), "Metrics system was not initialized.");
}

#[test]
fn switches_are_off_only_on_true() {
    assert!(switch_enabled(None));
    assert!(switch_enabled(Some("false")));
    assert!(switch_enabled(Some("")));
    assert!(switch_enabled(Some("TRUE")));
    assert!(!switch_enabled(Some("true")));
}

#[test]
fn disabled_metrics_install_a_noop_recorder() {
    let off = Switches { core: false, tracing_layer: true };
    assert_eq!(init_global(off, Progress::Start), Step::OfferRecorder(RecorderChoice::Noop));
    assert_eq!(init_global(off, Progress::RecorderOffered { taken: true }), Step::Finished(Ok(())));
    assert_eq!(
        init_global(off, Progress::RecorderOffered { taken: false }),
        Step::Finished(Err(Error::AlreadyInitialized))
    );
}

#[test]
fn global_setup_offers_controller_then_recorder() {
    assert_eq!(
        init_global(ON, Progress::Start),
        Step::OfferController(Controller { scope: RecorderScope::Global })
    );
    assert_eq!(
        init_global(ON, Progress::ControllerOffered { taken: true }),
        Step::OfferRecorder(RecorderChoice::Layered(RecorderScope::Global))
    );
    let plain = Switches { core: true, tracing_layer: false };
    assert_eq!(
        init_global(plain, Progress::ControllerOffered { taken: true }),
        Step::OfferRecorder(RecorderChoice::Plain(RecorderScope::Global))
    );
    assert_eq!(init_global(ON, Progress::RecorderOffered { taken: true }), Step::Finished(Ok(())));
}

#[test]
fn second_setup_fails() {
    assert_eq!(
        init_global(ON, Progress::ControllerOffered { taken: false }),
        Step::Finished(Err(Error::AlreadyInitialized))
    );
    assert_eq!(
        init_test(ON, Progress::RecorderOffered { taken: false }),
        Step::Finished(Err(Error::AlreadyInitialized))
    );
}

#[test]
fn test_setup_uses_the_thread_local_scope() {
    assert_eq!(
        init_test(ON, Progress::Start),
        Step::OfferController(Controller { scope: RecorderScope::ThreadLocal })
    );
    assert_eq!(
        init_test(ON, Progress::ControllerOffered { taken: true }),
        Step::OfferRecorder(RecorderChoice::Layered(RecorderScope::ThreadLocal))
    );
    assert_eq!(
        init(RecorderScope::ThreadLocal, ON, Progress::Start),
        init_test(ON, Progress::Start)
    );
}
