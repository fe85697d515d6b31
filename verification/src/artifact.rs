//! Where the generator artifact comes from and where it is cached.

use vstd::prelude::*;
use vstd::string::StringExecFns;

verus! {

/// The cache directory that is used when none is configured.
pub open spec fn spec_default_cache_root() -> Seq<char> {
    "./target"@
}

/// The download address of the generator release `version`.
pub open spec fn spec_artifact_url(version: Seq<char>) -> Seq<char> {
    "https://repo1.maven.org/maven2/org/openapitools/openapi-generator-cli/"@ + version
        + "/openapi-generator-cli-"@ + version + ".jar"@
}

/// The file under `cache_root` that holds the generator release `version`.
pub open spec fn spec_artifact_path(cache_root: Seq<char>, version: Seq<char>) -> Seq<char> {
    cache_root + "/openapi-generator-cli-"@ + version + ".jar"@
}

/// The cache directory in effect: the configured one, or the default.
pub open spec fn spec_cache_root(configured: Option<Seq<char>>) -> Seq<char> {
    match configured {
        Some(dir) => dir,
        None => spec_default_cache_root(),
    }
}

/// Returns the cache directory in effect for an optional configured value.
pub fn cache_root(configured: Option<String>) -> (root: String)
    ensures
        root@ == spec_cache_root(configured.deep_view()),
{
    match configured {
        Some(dir) => dir,
        None => String::from_str("./target"),
    }
}

/// Returns the download address of the generator release `version`.
pub fn artifact_url(version: &str) -> (url: String)
    ensures
        url@ == spec_artifact_url(version@),
{
    let mut url = String::from_str(
        "https://repo1.maven.org/maven2/org/openapitools/openapi-generator-cli/",
    );
    url.append(version);
    url.append("/openapi-generator-cli-");
    url.append(version);
    url.append(".jar");
    url
}

/// Returns the file under `cache_root` that holds the generator release
/// `version`.
pub fn artifact_path(cache_root: &str, version: &str) -> (path: String)
    ensures
        path@ == spec_artifact_path(cache_root@, version@),
{
    let mut path = String::from_str(cache_root);
    path.append("/openapi-generator-cli-");
    path.append(version);
    path.append(".jar");
    path
}

} // verus!
