use kwinspect::manifest::{Layer, SignatureManifest};
use kwinspect::report::{
    annotation_to_row_key, layer_table, markdown_result, metadata_details, metadata_usage,
    missing_metadata_message, rules_markdown, signature_tables, ExecutionMode, OutputType,
    PolicyMetadata, RenderOutcome, ReportError, ReportRow,
};
use kwinspect::text::{bool_text_of, int_text_of, nat_text_of};

fn pairs(p: &[(&str, &str)]) -> Vec<(String, String)> {
    p.iter().map(|(k, v)| (k.to_string(), v.to_string())).collect()
}

fn entry(k: &str, v: &str) -> ReportRow {
    ReportRow::Entry(k.to_string(), v.to_string())
}

fn section(t: &str) -> ReportRow {
    ReportRow::Section(t.to_string())
}

fn metadata(
    annotations: Option<Vec<(String, String)>>,
    mode: ExecutionMode,
    protocol_version: Option<&str>,
) -> PolicyMetadata {
    PolicyMetadata {
        annotations,
        mutating: false,
        context_aware: true,
        execution_mode: mode,
        protocol_version: protocol_version.map(String::from),
    }
}

#[test]
fn details_of_wapc_policy() {
    let m = metadata(
        Some(pairs(&[
            ("io.kubewarden.policy.license", "Apache-2.0"),
            ("custom", "value"),
            ("io.kubewarden.policy.title", "pod-privileged"),
            ("io.kubewarden.policy.usage", "some text"),
        ])),
        ExecutionMode::KubewardenWapc,
        Some("v1"),
    );
    let rows = metadata_details(&m).unwrap();
    assert_eq!(
        rows,
        vec![
            section("Details"),
            entry("title:", "pod-privileged"),
            entry("license:", "Apache-2.0"),
            entry("mutating:", "false"),
            entry("context aware:", "true"),
            entry("execution mode:", "kubewarden-wapc"),
            entry("protocol version:", "v1"),
            ReportRow::Blank,
            section("Annotations"),
            entry("custom", "value"),
        ]
    );
}

#[test]
fn protocol_version_row_only_for_wapc() {
    let m = metadata(None, ExecutionMode::Opa, Some("v1"));
    let rows = metadata_details(&m).unwrap();
    assert_eq!(
        rows,
        vec![
            section("Details"),
            entry("mutating:", "false"),
            entry("context aware:", "true"),
            entry("execution mode:", "opa"),
        ]
    );
    let g = metadata(None, ExecutionMode::OpaGatekeeper, None);
    let rows = metadata_details(&g).unwrap();
    assert_eq!(rows[3], entry("execution mode:", "gatekeeper"));
    assert_eq!(rows.len(), 4);
}

#[test]
fn missing_protocol_version_fails() {
    let m = metadata(None, ExecutionMode::KubewardenWapc, None);
    assert_eq!(metadata_details(&m), Err(ReportError::MissingProtocolVersion));
    assert_eq!(
        ReportError::MissingProtocolVersion.message(),
        "Invalid policy: protocol_version not defined"
    );
}

#[test]
fn consumed_keys_stay_out_of_annotations() {
    let m = metadata(
        Some(pairs(&[
            ("io.kubewarden.policy.author", "me"),
            ("io.kubewarden.policy.usage", "use it"),
            ("zzz", "1"),
            ("io.kubewarden.policy.url", "https://example.com"),
        ])),
        ExecutionMode::Opa,
        None,
    );
    let rows = metadata_details(&m).unwrap();
    let split = rows.iter().position(|r| *r == section("Annotations")).unwrap();
    let details = &rows[..split];
    let annotations = &rows[split + 1..];
    assert_eq!(annotations, &[entry("zzz", "1")][..]);
    assert!(details.contains(&entry("author:", "me")));
    assert!(details.contains(&entry("url:", "https://example.com")));
    assert!(!details.iter().any(|r| matches!(r, ReportRow::Entry(k, _) if k.starts_with("zzz"))));
}

#[test]
fn no_annotations_section_when_all_consumed() {
    let m = metadata(
        Some(pairs(&[
            ("io.kubewarden.policy.description", "d"),
            ("io.kubewarden.policy.source", "s"),
            ("io.kubewarden.policy.usage", "u"),
        ])),
        ExecutionMode::Opa,
        None,
    );
    let rows = metadata_details(&m).unwrap();
    assert_eq!(
        rows,
        vec![
            section("Details"),
            entry("description:", "d"),
            entry("source:", "s"),
            entry("mutating:", "false"),
            entry("context aware:", "true"),
            entry("execution mode:", "opa"),
        ]
    );
}

#[test]
fn usage_text() {
    let m = metadata(Some(pairs(&[("io.kubewarden.policy.usage", "# Usage")])), ExecutionMode::Opa, None);
    assert_eq!(metadata_usage(&m), Some(String::from("# Usage")));
    let none = metadata(Some(pairs(&[("a", "b")])), ExecutionMode::Opa, None);
    assert_eq!(metadata_usage(&none), None);
    assert_eq!(metadata_usage(&metadata(None, ExecutionMode::Opa, None)), None);
}

#[test]
fn row_keys_drop_the_namespace() {
    assert_eq!(annotation_to_row_key(&String::from("io.kubewarden.policy.title")), "title:");
    assert_eq!(annotation_to_row_key(&String::from("custom")), "custom:");
    assert_eq!(
        annotation_to_row_key(&String::from("io.kubewarden.policy.io.kubewarden.policy.x")),
        "x:"
    );
}

#[test]
fn rules_in_a_fenced_block() {
    assert_eq!(rules_markdown("- a: 1\n"), "```yaml\n- a: 1\n```");
}

#[test]
fn broken_pipe_is_no_failure() {
    assert_eq!(markdown_result(RenderOutcome::Rendered), Ok(()));
    assert_eq!(markdown_result(RenderOutcome::BrokenPipe), Ok(()));
    assert_eq!(
        markdown_result(RenderOutcome::Failed(String::from("boom"))),
        Err(ReportError::MarkdownFailed(String::from("boom")))
    );
    assert_eq!(
        ReportError::MarkdownFailed(String::from("boom")).message(),
        "Cannot render markdown to stdout: boom"
    );
}

#[test]
fn output_formats() {
    assert_eq!(OutputType::try_from(None), Ok(OutputType::Pretty));
    assert_eq!(OutputType::try_from(Some("yaml")), Ok(OutputType::Yaml));
    let err = OutputType::try_from(Some("json"));
    assert_eq!(err, Err(ReportError::InvalidOutputFormat(String::from("json"))));
    assert_eq!(
        ReportError::InvalidOutputFormat(String::from("json")).message(),
        "Invalid output format 'json'"
    );
}

#[test]
fn missing_metadata_text() {
    assert_eq!(
        missing_metadata_message("registry://ghcr.io/a/b:v1"),
        "No Kubewarden metadata found inside of 'registry://ghcr.io/a/b:v1'.\nPolicies can be annotated with the `kwctl annotate` command."
    );
}

#[test]
fn signature_layer_tables() {
    let manifest = SignatureManifest {
        layers: vec![
            Layer {
                digest: String::from("sha256:01"),
                media_type: String::from("application/json"),
                size: 1024,
                annotations: Some(pairs(&[("dev.cosignproject.cosign/signature", "MEUC")])),
            },
            Layer {
                digest: String::from("sha256:02"),
                media_type: String::from("text/plain"),
                size: 0,
                annotations: None,
            },
        ],
    };
    let tables = signature_tables(&manifest);
    assert_eq!(tables.len(), 2);
    assert_eq!(
        tables[0],
        vec![
            ReportRow::Property("Digest: ".to_string(), "sha256:01".to_string()),
            ReportRow::Property("Media type: ".to_string(), "application/json".to_string()),
            ReportRow::Property("Size: ".to_string(), "1024".to_string()),
            section("Annotations"),
            entry("dev.cosignproject.cosign/signature", "MEUC"),
        ]
    );
    assert_eq!(tables[1], layer_table(&manifest.layers[1]));
    assert_eq!(tables[1].len(), 3);
    assert_eq!(tables[1][2], ReportRow::Property("Size: ".to_string(), "0".to_string()));
}

#[test]
fn number_and_flag_text() {
    assert_eq!(nat_text_of(0), "0");
    assert_eq!(nat_text_of(1234567890), "1234567890");
    assert_eq!(nat_text_of(u64::MAX), u64::MAX.to_string());
    assert_eq!(int_text_of(-42), "-42");
    assert_eq!(int_text_of(i64::MIN), i64::MIN.to_string());
    assert_eq!(bool_text_of(true), "true");
    assert_eq!(bool_text_of(false), "false");
}
