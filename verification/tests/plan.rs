use openapi_cli::plan::Plan;
use openapi_cli::request::GenerationRequest;
use std::path::PathBuf;

fn request(version: &str) -> GenerationRequest {
    GenerationRequest::new(
        Some(String::from(version)),
        PathBuf::from("api.yaml"),
        PathBuf::from("./gen"),
        String::from("go"),
        None,
        None,
    )
}

#[test]
fn prepared_plan_names_url_and_cache_file() {
    let plan = Plan::prepare(request("6.2.0"), "./target");
    assert_eq!(
        plan.url(),
        "https://repo1.maven.org/maven2/org/openapitools/openapi-generator-cli/6.2.0/openapi-generator-cli-6.2.0.jar"
    );
    assert_eq!(plan.artifact(), "./target/openapi-generator-cli-6.2.0.jar");
    assert_eq!(plan.request(), &request("6.2.0"));
}

#[test]
fn prepared_plan_finds_the_directory_of_the_cache_file() {
    let plan = Plan::prepare(request("6.2.0"), "./target");
    assert_eq!(plan.cache_dir(), Some(&PathBuf::from("./target")));
}

#[test]
fn prepared_plan_follows_a_version_that_names_a_directory() {
    let plan = Plan::prepare(request("a/b"), "cache");
    assert_eq!(plan.artifact(), "cache/openapi-generator-cli-a/b.jar");
    assert_eq!(plan.cache_dir(), Some(&PathBuf::from("cache/openapi-generator-cli-a")));
}

#[test]
fn prepared_plan_under_empty_root_lies_in_the_root_directory() {
    let plan = Plan::prepare(request("6.2.0"), "");
    assert_eq!(plan.artifact(), "/openapi-generator-cli-6.2.0.jar");
    assert_eq!(plan.cache_dir(), Some(&PathBuf::from("/")));
}

#[test]
fn assembled_plan_keeps_the_directory_it_was_given() {
    let plan = Plan::assemble(request("6.2.0"), "./target", Some(PathBuf::from("elsewhere")));
    assert_eq!(plan.cache_dir(), Some(&PathBuf::from("elsewhere")));
    assert_eq!(plan.artifact(), "./target/openapi-generator-cli-6.2.0.jar");
}

#[test]
fn assembled_plan_may_have_no_directory() {
    let plan = Plan::assemble(request("6.2.0"), "./target", None);
    assert_eq!(plan.cache_dir(), None);
}

#[test]
fn assembled_and_prepared_plans_agree_on_url_and_cache_file() {
    let prepared = Plan::prepare(request("7.0.1"), "/var/cache");
    let assembled = Plan::assemble(request("7.0.1"), "/var/cache", None);
    assert_eq!(prepared.url(), assembled.url());
    assert_eq!(prepared.artifact(), assembled.artifact());
}
