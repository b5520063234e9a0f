//! Signature manifests as the registry hands them back.

use vstd::prelude::*;

verus! {

/// One layer of a signature manifest.
#[derive(Debug, PartialEq)]
pub struct Layer {
    pub digest: String,
    pub media_type: String,
    pub size: i64,
    /// Annotation keys and values, in the mapping's order.
    pub annotations: Option<Vec<(String, String)>>,
}

/// An image manifest holding the signature layers of an artifact.
#[derive(Debug, PartialEq)]
pub struct SignatureManifest {
    pub layers: Vec<Layer>,
}

/// What a manifest fetch returned.
#[derive(Debug, PartialEq)]
pub enum FetchedManifest {
    Image(SignatureManifest),
    /// An index (a list of manifests), which holds no signature layers.
    Index,
}

/// Last step of signature discovery: a failed fetch (`None`) or a manifest
/// that is not an image manifest means that there is no signature.
pub fn select_image_manifest(fetched: Option<FetchedManifest>) -> (r: Option<SignatureManifest>)
    ensures
        fetched matches Some(FetchedManifest::Image(m)) ==> r == Some(m),
        !(fetched matches Some(FetchedManifest::Image(_))) ==> r is None,
{
    match fetched {
        Some(FetchedManifest::Image(m)) => Some(m),
        _ => None,
    }
}

} // verus!
