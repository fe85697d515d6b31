//! The plan of a run: a request together with the places that follow from it.

use crate::artifact::{artifact_path, artifact_url, spec_artifact_path, spec_artifact_url};
use crate::request::{GenerationRequest, RequestView};
use std::path::PathBuf;
use vstd::prelude::*;

verus! {

/// A request, the address and cache file of its generator artifact, and the
/// directory that holds the cache file, if the file's path has one.
pub struct Plan {
    request: GenerationRequest,
    url: String,
    artifact: String,
    cache_dir: Option<PathBuf>,
}

/// The mathematical content of a [`Plan`].
pub struct PlanView {
    pub request: RequestView,
    pub url: Seq<char>,
    pub artifact: Seq<char>,
    pub cache_dir: Option<PathBuf>,
}

/// The plan for `request` with its cache under `cache_root`, where `cache_dir`
/// is the directory that holds the cache file.
pub open spec fn spec_plan(
    request: RequestView,
    cache_root: Seq<char>,
    cache_dir: Option<PathBuf>,
) -> PlanView {
    PlanView {
        request,
        url: spec_artifact_url(request.version),
        artifact: spec_artifact_path(cache_root, request.version),
        cache_dir,
    }
}

impl View for Plan {
    type V = PlanView;

    closed spec fn view(&self) -> PlanView {
        PlanView {
            request: self.request@,
            url: self.url@,
            artifact: self.artifact@,
            cache_dir: self.cache_dir,
        }
    }
}

/// Calls `std::path::Path::parent` on `path` and returns an owned copy of what
/// it gives: the path without its last component, or `None` where the path
/// has no such parent. How a path splits into components is the platform's
/// business, so nothing is claimed of the result.
#[verifier::external_body]
fn parent_dir(path: &str) -> (parent: Option<PathBuf>) {
    std::path::Path::new(path).parent().map(std::path::Path::to_path_buf)
}

impl Plan {
    /// Makes the plan for `request` with its cache under `cache_root`, given
    /// the directory `cache_dir` that holds the cache file.
    pub fn assemble(
        request: GenerationRequest,
        cache_root: &str,
        cache_dir: Option<PathBuf>,
    ) -> (plan: Plan)
        ensures
            plan@ == spec_plan(request@, cache_root@, cache_dir),
    {
        let url = artifact_url(request.version.as_str());
        let artifact = artifact_path(cache_root, request.version.as_str());
        Plan { request, url, artifact, cache_dir }
    }

    /// Makes the plan for `request` with its cache under `cache_root`. The
    /// directory that holds the cache file is the parent of the file's path as
    /// the platform sees it; every other part of the plan is fixed by the
    /// arguments.
    pub fn prepare(request: GenerationRequest, cache_root: &str) -> (plan: Plan)
        ensures
            plan@ == spec_plan(request@, cache_root@, plan@.cache_dir),
    {
        let url = artifact_url(request.version.as_str());
        let artifact = artifact_path(cache_root, request.version.as_str());
        let cache_dir = parent_dir(artifact.as_str());
        Plan { request, url, artifact, cache_dir }
    }

    /// The request that the plan was made for.
    pub fn request(&self) -> (request: &GenerationRequest)
        ensures
            request@ == self@.request,
    {
        &self.request
    }

    /// The address that the generator artifact is fetched from.
    pub fn url(&self) -> (url: &str)
        ensures
            url@ == self@.url,
    {
        self.url.as_str()
    }

    /// The cache file of the generator artifact.
    pub fn artifact(&self) -> (artifact: &str)
        ensures
            artifact@ == self@.artifact,
    {
        self.artifact.as_str()
    }

    /// The directory that holds the cache file, if the file's path has one.
    pub fn cache_dir(&self) -> (cache_dir: Option<&PathBuf>)
        ensures
            match cache_dir {
                Some(dir) => self@.cache_dir == Some(*dir),
                None => self@.cache_dir is None,
            },
    {
        match &self.cache_dir {
            Some(dir) => Some(dir),
            None => None,
        }
    }
}

} // verus!
