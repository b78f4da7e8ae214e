use pod_metadata::annotator::{
    annotate_from_container, annotate_from_container_status, annotate_from_file_info,
    annotate_from_metadata, annotate_from_pod_spec, annotate_from_pod_status,
};
use pod_metadata::fields::FieldsSpec;
use pod_metadata::file_info::parse_log_file_path;
use pod_metadata::path::OwnedTargetPath;
use pod_metadata::pod::{Container, ContainerStatus, ObjectMeta, PodIP, PodSpec, PodStatus};
use pod_metadata::record::{LogEvent, Value};

fn segs(parts: &[&str]) -> Vec<String> {
    parts.iter().map(|p| p.to_string()).collect()
}

fn target(parts: &[&str]) -> Option<OwnedTargetPath> {
    Some(OwnedTargetPath::event(segs(parts)))
}

fn text(s: &str) -> Value {
    Value::Bytes(s.to_string())
}

fn list(items: &[&str]) -> Value {
    Value::Array(segs(items))
}

fn pairs(items: &[(&str, &str)]) -> Option<Vec<(String, String)>> {
    Some(items.iter().map(|(k, v)| (k.to_string(), v.to_string())).collect())
}

fn record(entries: &[(&[&str], Value)]) -> LogEvent {
    let mut log = LogEvent::new();
    for (p, v) in entries {
        log.insert(&segs(p), v.clone());
    }
    log
}

fn assert_same(actual: &LogEvent, expected: &LogEvent) {
    let actual_paths = actual.paths();
    let expected_paths = expected.paths();
    assert_eq!(actual_paths.len(), expected_paths.len(), "fields: {:?}", actual_paths);
    for p in &expected_paths {
        assert_eq!(actual.get(p), expected.get(p), "at {:?}", p);
    }
}

fn sandbox_meta() -> ObjectMeta {
    ObjectMeta {
        name: Some("sandbox0-name".to_owned()),
        namespace: Some("sandbox0-ns".to_owned()),
        uid: Some("sandbox0-uid".to_owned()),
        labels: pairs(&[("sandbox0-label0", "val0"), ("sandbox0-label1", "val1")]),
        annotations: pairs(&[("sandbox0-annotation0", "val0"), ("sandbox0-annotation1", "val1")]),
        ..ObjectMeta::default()
    }
}

#[test]
fn test_annotate_from_metadata() {
    let cases = vec![
        (FieldsSpec::default(), ObjectMeta::default(), LogEvent::new()),
        (
            FieldsSpec::default(),
            sandbox_meta(),
            record(&[
                (&["kubernetes", "pod_name"], text("sandbox0-name")),
                (&["kubernetes", "pod_namespace"], text("sandbox0-ns")),
                (&["kubernetes", "pod_uid"], text("sandbox0-uid")),
                (&["kubernetes", "pod_labels", "sandbox0-label0"], text("val0")),
                (&["kubernetes", "pod_labels", "sandbox0-label1"], text("val1")),
                (&["kubernetes", "pod_annotations", "sandbox0-annotation0"], text("val0")),
                (&["kubernetes", "pod_annotations", "sandbox0-annotation1"], text("val1")),
            ]),
        ),
        (
            FieldsSpec {
                pod_name: target(&["name"]),
                pod_namespace: target(&["ns"]),
                pod_uid: target(&["uid"]),
                pod_labels: target(&["labels"]),
                // ensure we can disable fields
                pod_annotations: None,
                ..Default::default()
            },
            sandbox_meta(),
            record(&[
                (&["name"], text("sandbox0-name")),
                (&["ns"], text("sandbox0-ns")),
                (&["uid"], text("sandbox0-uid")),
                (&["labels", "sandbox0-label0"], text("val0")),
                (&["labels", "sandbox0-label1"], text("val1")),
            ]),
        ),
        // Ensure we properly handle labels with `.` as flat fields.
        (
            FieldsSpec::default(),
            ObjectMeta {
                name: Some("sandbox0-name".to_owned()),
                namespace: Some("sandbox0-ns".to_owned()),
                uid: Some("sandbox0-uid".to_owned()),
                labels: pairs(&[
                    ("nested0.label0", "val0"),
                    ("nested0.label1", "val1"),
                    ("nested1.label0", "val2"),
                    ("nested2.label0.deep0", "val3"),
                ]),
                ..ObjectMeta::default()
            },
            record(&[
                (&["kubernetes", "pod_name"], text("sandbox0-name")),
                (&["kubernetes", "pod_namespace"], text("sandbox0-ns")),
                (&["kubernetes", "pod_uid"], text("sandbox0-uid")),
                (&["kubernetes", "pod_labels", "nested0.label0"], text("val0")),
                (&["kubernetes", "pod_labels", "nested0.label1"], text("val1")),
                (&["kubernetes", "pod_labels", "nested1.label0"], text("val2")),
                (&["kubernetes", "pod_labels", "nested2.label0.deep0"], text("val3")),
            ]),
        ),
    ];

    for (fields_spec, metadata, expected) in cases.into_iter() {
        let mut log = LogEvent::new();
        annotate_from_metadata(&mut log, &fields_spec, &metadata);
        assert_same(&log, &expected);
    }
}

#[test]
fn test_annotate_from_file_info() {
    let file =
        "/var/log/pods/sandbox0-ns_sandbox0-name_sandbox0-uid/sandbox0-container0-name/1.log";
    let cases = vec![
        (
            FieldsSpec::default(),
            file,
            record(&[(&["kubernetes", "container_name"], text("sandbox0-container0-name"))]),
        ),
        (
            FieldsSpec { container_name: target(&["container_name"]), ..Default::default() },
            file,
            record(&[(&["container_name"], text("sandbox0-container0-name"))]),
        ),
    ];

    for (fields_spec, file, expected) in cases.into_iter() {
        let mut log = LogEvent::new();
        let file_info = parse_log_file_path(file).unwrap();
        annotate_from_file_info(&mut log, &fields_spec, &file_info);
        assert_same(&log, &expected);
    }
}

#[test]
fn test_annotate_from_pod_spec() {
    let cases = vec![
        (FieldsSpec::default(), PodSpec::default(), LogEvent::new()),
        (
            FieldsSpec::default(),
            PodSpec { node_name: Some("sandbox0-node-name".to_owned()), ..Default::default() },
            record(&[(&["kubernetes", "pod_node_name"], text("sandbox0-node-name"))]),
        ),
        (
            FieldsSpec { pod_node_name: target(&["node_name"]), ..Default::default() },
            PodSpec { node_name: Some("sandbox0-node-name".to_owned()), ..Default::default() },
            record(&[(&["node_name"], text("sandbox0-node-name"))]),
        ),
    ];

    for (fields_spec, pod_spec, expected) in cases.into_iter() {
        let mut log = LogEvent::new();
        annotate_from_pod_spec(&mut log, &fields_spec, &pod_spec);
        assert_same(&log, &expected);
    }
}

fn ip(a: &str) -> PodIP {
    PodIP { ip: Some(a.to_owned()) }
}

#[test]
fn test_annotate_from_pod_status() {
    let cases = vec![
        (FieldsSpec::default(), PodStatus::default(), LogEvent::new()),
        (
            FieldsSpec::default(),
            PodStatus { pod_ip: Some("192.168.1.2".to_owned()), ..Default::default() },
            record(&[(&["kubernetes", "pod_ip"], text("192.168.1.2"))]),
        ),
        (
            FieldsSpec::default(),
            PodStatus { pod_ips: Some(vec![ip("192.168.1.2")]), ..Default::default() },
            record(&[(&["kubernetes", "pod_ips"], list(&["192.168.1.2"]))]),
        ),
        (
            FieldsSpec {
                pod_ip: target(&["kubernetes", "custom_pod_ip"]),
                pod_ips: target(&["kubernetes", "custom_pod_ips"]),
                ..FieldsSpec::default()
            },
            PodStatus {
                pod_ip: Some("192.168.1.2".to_owned()),
                pod_ips: Some(vec![ip("192.168.1.2"), ip("192.168.1.3")]),
                ..Default::default()
            },
            record(&[
                (&["kubernetes", "custom_pod_ip"], text("192.168.1.2")),
                (&["kubernetes", "custom_pod_ips"], list(&["192.168.1.2", "192.168.1.3"])),
            ]),
        ),
        (
            FieldsSpec { pod_node_name: target(&["node_name"]), ..FieldsSpec::default() },
            PodStatus {
                pod_ip: Some("192.168.1.2".to_owned()),
                pod_ips: Some(vec![ip("192.168.1.2"), ip("192.168.1.3")]),
                ..Default::default()
            },
            record(&[
                (&["kubernetes", "pod_ip"], text("192.168.1.2")),
                (&["kubernetes", "pod_ips"], list(&["192.168.1.2", "192.168.1.3"])),
            ]),
        ),
    ];

    for (fields_spec, pod_status, expected) in cases.into_iter() {
        let mut log = LogEvent::new();
        annotate_from_pod_status(&mut log, &fields_spec, &pod_status);
        assert_same(&log, &expected);
    }
}

#[test]
fn test_annotate_from_container_status() {
    let cases = vec![
        (FieldsSpec::default(), ContainerStatus::default(), LogEvent::new()),
        (
            FieldsSpec { ..FieldsSpec::default() },
            ContainerStatus {
                container_id: Some("container_id_foo".to_owned()),
                ..ContainerStatus::default()
            },
            record(&[(&["kubernetes", "container_id"], text("container_id_foo"))]),
        ),
    ];
    for (fields_spec, container_status, expected) in cases.into_iter() {
        let mut log = LogEvent::new();
        annotate_from_container_status(&mut log, &fields_spec, &container_status);
        assert_same(&log, &expected);
    }
}

#[test]
fn test_annotate_from_container() {
    let cases = vec![
        (FieldsSpec::default(), Container::default(), LogEvent::new()),
        (
            FieldsSpec::default(),
            Container { image: Some("sandbox0-container-image".to_owned()), ..Default::default() },
            record(&[(&["kubernetes", "container_image"], text("sandbox0-container-image"))]),
        ),
        (
            FieldsSpec { container_image: target(&["container_image"]), ..Default::default() },
            Container { image: Some("sandbox0-container-image".to_owned()), ..Default::default() },
            record(&[(&["container_image"], text("sandbox0-container-image"))]),
        ),
    ];

    for (fields_spec, container, expected) in cases.into_iter() {
        let mut log = LogEvent::new();
        annotate_from_container(&mut log, &fields_spec, &container);
        assert_same(&log, &expected);
    }
}
