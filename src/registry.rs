use vstd::prelude::*;

verus! {

/// One GET request to the registry or its token service.
#[derive(Debug)]
pub struct HttpRequest {
    pub url: String,
    /// The bearer token sent in `Authorization`, if any.
    pub bearer: Option<String>,
    /// The media type asked for in `Accept`, if any.
    pub accept: Option<String>,
}

pub open spec fn token_url(name: Seq<char>) -> Seq<char> {
    "https://auth.docker.io/token?service=registry.docker.io&scope=repository:library/"@ + name
        + ":pull"@
}

pub open spec fn manifest_url(name: Seq<char>, reference: Seq<char>) -> Seq<char> {
    "https://registry.hub.docker.com/v2/library/"@ + name + "/manifests/"@ + reference
}

pub open spec fn blob_url(name: Seq<char>, digest: Seq<char>) -> Seq<char> {
    "https://registry.hub.docker.com/v2/library/"@ + name + "/blobs/"@ + digest
}

pub open spec fn manifest_list_media_type() -> Seq<char> {
    "application/vnd.docker.distribution.manifest.list.v2+json"@
}

pub open spec fn image_manifest_media_type() -> Seq<char> {
    "application/vnd.oci.image.manifest.v1+json"@
}

pub open spec fn carries_token(req: HttpRequest, token: Seq<char>) -> bool {
    req.bearer matches Some(b) && b@ == token
}

pub open spec fn accepts(req: HttpRequest, media_type: Seq<char>) -> bool {
    req.accept matches Some(a) && a@ == media_type
}

/// The anonymous request for a token that may pull `library/<name>`.
pub fn token_request(name: &str) -> (r: HttpRequest)
    ensures
        r.url@ == token_url(name@),
        r.bearer is None,
        r.accept is None,
{
    let url = String::from_str(
        "https://auth.docker.io/token?service=registry.docker.io&scope=repository:library/",
    ).concat(name).concat(":pull");
    HttpRequest { url, bearer: None, accept: None }
}

/// The request for the manifest list of `name:tag`, one manifest per architecture.
pub fn manifest_list_request(name: &str, tag: &str, token: &str) -> (r: HttpRequest)
    ensures
        r.url@ == manifest_url(name@, tag@),
        carries_token(r, token@),
        accepts(r, manifest_list_media_type()),
{
    let url = String::from_str("https://registry.hub.docker.com/v2/library/").concat(name).concat(
        "/manifests/",
    ).concat(tag);
    let accept = String::from_str("application/vnd.docker.distribution.manifest.list.v2+json");
    HttpRequest { url, bearer: Some(String::from_str(token)), accept: Some(accept) }
}

/// The request for the image manifest that `digest` names, which lists the layers.
pub fn image_manifest_request(name: &str, digest: &str, token: &str) -> (r: HttpRequest)
    ensures
        r.url@ == manifest_url(name@, digest@),
        carries_token(r, token@),
        accepts(r, image_manifest_media_type()),
{
    let url = String::from_str("https://registry.hub.docker.com/v2/library/").concat(name).concat(
        "/manifests/",
    ).concat(digest);
    let accept = String::from_str("application/vnd.oci.image.manifest.v1+json");
    HttpRequest { url, bearer: Some(String::from_str(token)), accept: Some(accept) }
}

/// The request for the compressed layer archive that `digest` names.
pub fn blob_request(name: &str, digest: &str, token: &str) -> (r: HttpRequest)
    ensures
        r.url@ == blob_url(name@, digest@),
        carries_token(r, token@),
        r.accept is None,
{
    let url = String::from_str("https://registry.hub.docker.com/v2/library/").concat(name).concat(
        "/blobs/",
    ).concat(digest);
    HttpRequest { url, bearer: Some(String::from_str(token)), accept: None }
}

} // verus!
