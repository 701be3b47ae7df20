//! The registry wire protocol, as data: the three request shapes the
//! launcher issues (token, manifest, blob) and the manifest model the
//! responses are checked against. The requests are built here so that
//! their exact URLs, query parameters and headers are part of the
//! library's contract; the binary only sends them.

use vstd::prelude::*;

verus! {

/// The one manifest schema this launcher supports, as a view.
pub open spec fn spec_manifest_media_type() -> Seq<char> {
    "application/vnd.docker.distribution.manifest.v2+json"@
}

/// The one manifest schema this launcher supports; sent as the
/// `Accept` header and required of the response's declared media type.
pub fn manifest_media_type() -> (r: String)
    ensures
        r@ == spec_manifest_media_type(),
{
    "application/vnd.docker.distribution.manifest.v2+json".to_owned()
}

/// The registry's token endpoint.
pub fn token_url() -> (r: String)
    ensures
        r@ == "https://auth.docker.io/token"@,
{
    "https://auth.docker.io/token".to_owned()
}

/// The `service` query parameter of a token request.
pub fn token_service() -> (r: String)
    ensures
        r@ == "registry.docker.io"@,
{
    "registry.docker.io".to_owned()
}

/// The `scope` query parameter of a token request: pull access to one
/// library repository.
pub fn token_scope(repository: &str) -> (r: String)
    ensures
        r@ == "repository:library/"@ + repository@ + ":pull"@,
{
    let mut s = "repository:library/".to_owned();
    s.append(repository);
    s.append(":pull");
    s
}

/// The manifest endpoint for one repository and tag.
pub fn manifest_url(repository: &str, tag: &str) -> (r: String)
    ensures
        r@ == "https://registry.hub.docker.com/v2/library/"@ + repository@ + "/manifests/"@
            + tag@,
{
    let mut s = "https://registry.hub.docker.com/v2/library/".to_owned();
    s.append(repository);
    s.append("/manifests/");
    s.append(tag);
    s
}

/// The blob endpoint for one repository and layer digest.
pub fn blob_url(repository: &str, digest: &str) -> (r: String)
    ensures
        r@ == "https://registry.hub.docker.com/v2/library/"@ + repository@ + "/blobs/"@
            + digest@,
{
    let mut s = "https://registry.hub.docker.com/v2/library/".to_owned();
    s.append(repository);
    s.append("/blobs/");
    s.append(digest);
    s
}

/// One layer of a manifest, identified by its content digest. The
/// digest is used verbatim as a blob identifier, never re-verified
/// against the downloaded bytes.
pub struct LayerRef {
    pub digest: String,
}

/// A manifest: the media type the registry declared, and the image's
/// layers in stacking order. The order is significant and is kept
/// exactly as the registry returned it.
pub struct Manifest {
    pub media_type: String,
    pub layers: Vec<LayerRef>,
}

impl Manifest {
    /// The layer digests, in stacking order.
    pub open spec fn digests(self) -> Seq<Seq<char>> {
        self.layers@.map_values(|l: LayerRef| l.digest@)
    }

    /// The declared media type equals the one supported schema.
    pub open spec fn media_ok(self) -> bool {
        self.media_type@ == spec_manifest_media_type()
    }

    /// Check the declared media type against the supported schema.
    pub fn check_media_type(&self) -> (r: bool)
        ensures
            r == self.media_ok(),
    {
        let expected = manifest_media_type();
        self.media_type == expected
    }
}

} // verus!
