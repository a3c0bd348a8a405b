use vstd::prelude::*;
use vstd::string::StringExecFns;

verus! {

/// The PaperMC project endpoint that lists the versions of one jar kind:
/// `https://papermc.io/api/v2/projects/{kind}`.
pub open spec fn versions_url_of(kind: Seq<char>) -> Seq<char> {
    "https://papermc.io/api/v2/projects/"@ + kind
}

/// The URL queried for the versions of a jar kind.
pub fn get_versions_url(kind: &str) -> (r: String)
    ensures
        r@ == versions_url_of(kind@),
{
    let mut r = String::new();
    r.append("https://papermc.io/api/v2/projects/");
    r.append(kind);
    r
}

/// The PaperMC endpoint that lists the builds of one version:
/// `https://papermc.io/api/v2/projects/{kind}/versions/{version}`.
pub open spec fn builds_url_of(kind: Seq<char>, version: Seq<char>) -> Seq<char> {
    versions_url_of(kind) + "/versions/"@ + version
}

/// The URL queried for the builds of a version.
pub fn get_builds_url(kind: &str, version: &str) -> (r: String)
    ensures
        r@ == builds_url_of(kind@, version@),
{
    let mut r = get_versions_url(kind);
    r.append("/versions/");
    r.append(version);
    r
}

/// The PaperMC download endpoint for one jar, as a sequence of characters:
/// `https://papermc.io/api/v2/projects/{kind}/versions/{version}/builds/{build}/downloads/{kind}-{version}-{build}.jar`.
pub open spec fn download_url_of(kind: Seq<char>, version: Seq<char>, build: Seq<char>) -> Seq<
    char,
> {
    "https://papermc.io/api/v2/projects/"@ + kind + "/versions/"@ + version + "/builds/"@ + build
        + "/downloads/"@ + kind + "-"@ + version + "-"@ + build + ".jar"@
}

/// The URL from which the runner downloads the server jar described by
/// (kind, version, build).
pub fn get_download_url(kind: &str, version: &str, build: &str) -> (r: String)
    ensures
        r@ == download_url_of(kind@, version@, build@),
{
    let mut r = String::new();
    r.append("https://papermc.io/api/v2/projects/");
    r.append(kind);
    r.append("/versions/");
    r.append(version);
    r.append("/builds/");
    r.append(build);
    r.append("/downloads/");
    r.append(kind);
    r.append("-");
    r.append(version);
    r.append("-");
    r.append(build);
    r.append(".jar");
    r
}

} // verus!
