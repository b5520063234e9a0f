use kwinspect::manifest::{select_image_manifest, FetchedManifest, Layer, SignatureManifest};
use kwinspect::signature::{get_signature_url, signature_reference};

const DIGEST: &str = "sha256:0d6611ea12cf2904066308dde1c480b5d4f40e19b12f51f101a256b44d6c2dd5";

#[test]
fn signature_url_with_scheme() {
    assert_eq!(
        get_signature_url(
            "registry://ghcr.io/kubewarden/tests/pod-privileged:v0.1.9".to_string(),
            DIGEST
        ),
        Some(String::from("registry://ghcr.io/kubewarden/tests/pod-privileged:sha256-0d6611ea12cf2904066308dde1c480b5d4f40e19b12f51f101a256b44d6c2dd5.sig"))
    );
}

#[test]
fn signature_url_without_scheme() {
    assert_eq!(
        get_signature_url("ghcr.io/kubewarden/tests/pod-privileged:v0.1.9".to_string(), DIGEST),
        Some(String::from("ghcr.io/kubewarden/tests/pod-privileged:sha256-0d6611ea12cf2904066308dde1c480b5d4f40e19b12f51f101a256b44d6c2dd5.sig"))
    );
}

#[test]
fn signature_url_unqualified_reference() {
    assert_eq!(get_signature_url("not_valid".to_string(), DIGEST), None);
    assert_eq!(get_signature_url("not_valid".to_string(), "a:b:c"), None);
    assert_eq!(get_signature_url(String::new(), DIGEST), None);
}

#[test]
fn signature_url_uses_last_colon() {
    assert_eq!(
        get_signature_url("localhost:5000/policy:v1".to_string(), "sha256:ab"),
        Some(String::from("localhost:5000/policy:sha256-ab.sig"))
    );
    assert_eq!(
        get_signature_url("host/repo:".to_string(), "x:y:z"),
        Some(String::from("host/repo:x-y-z.sig"))
    );
    assert_eq!(
        get_signature_url("host/repo:tag".to_string(), ""),
        Some(String::from("host/repo:.sig"))
    );
}

#[test]
fn signature_url_is_repeatable() {
    let uri = "registry://ghcr.io/kubewarden/tests/pod-privileged:v0.1.9";
    let first = get_signature_url(uri.to_string(), DIGEST);
    let second = get_signature_url(uri.to_string(), DIGEST);
    assert_eq!(first, second);
    let again = get_signature_url(first.clone().unwrap(), DIGEST);
    assert_eq!(again, first);
}

#[test]
fn failed_digest_lookup_gives_no_reference() {
    assert_eq!(signature_reference("host/repo/name:v0.1.9", None), None);
    assert_eq!(
        signature_reference("host/repo/name:v0.1.9", Some(String::from("sha256:ff"))),
        Some(String::from("host/repo/name:sha256-ff.sig"))
    );
    assert_eq!(signature_reference("not_valid", Some(String::from("sha256:ff"))), None);
}

#[test]
fn only_image_manifests_are_signatures() {
    let manifest = SignatureManifest {
        layers: vec![Layer {
            digest: String::from("sha256:01"),
            media_type: String::from("application/vnd.dev.cosign.simplesigning.v1+json"),
            size: 233,
            annotations: None,
        }],
    };
    let expected = SignatureManifest {
        layers: vec![Layer {
            digest: String::from("sha256:01"),
            media_type: String::from("application/vnd.dev.cosign.simplesigning.v1+json"),
            size: 233,
            annotations: None,
        }],
    };
    assert_eq!(select_image_manifest(Some(FetchedManifest::Image(manifest))), Some(expected));
    assert_eq!(select_image_manifest(Some(FetchedManifest::Index)), None);
    assert_eq!(select_image_manifest(None), None);
}
