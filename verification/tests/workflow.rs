use openapi_cli::command::Arg;
use openapi_cli::plan::Plan;
use openapi_cli::request::GenerationRequest;
use openapi_cli::run::replay;
use openapi_cli::workflow::{step, Action, Event, Failure, Stage};
use std::path::PathBuf;

const JAR: &str = "./target/openapi-generator-cli-6.2.0.jar";
const URL: &str =
    "https://repo1.maven.org/maven2/org/openapitools/openapi-generator-cli/6.2.0/openapi-generator-cli-6.2.0.jar";

fn request() -> GenerationRequest {
    GenerationRequest::new(
        None,
        PathBuf::from("api.yaml"),
        PathBuf::from("./gen"),
        String::from("go"),
        None,
        None,
    )
}

fn plan() -> Plan {
    Plan::prepare(request(), "./target")
}

fn all_stages() -> Vec<Stage> {
    vec![
        Stage::Start,
        Stage::CacheCheck,
        Stage::CacheDirCheck,
        Stage::CacheDirCreate,
        Stage::Download,
        Stage::OutputCheck,
        Stage::OutputClear,
        Stage::Invoke,
        Stage::Succeeded,
        Stage::Failed,
    ]
}

fn launch<'a>(spec: &'a PathBuf, out: &'a PathBuf) -> Action<'a> {
    Action::Launch {
        program: "java",
        args: vec![
            Arg::Text("-jar"),
            Arg::Text(JAR),
            Arg::Text("generate"),
            Arg::Text("-i"),
            Arg::Path(spec),
            Arg::Text("-g"),
            Arg::Text("go"),
            Arg::Text("-o"),
            Arg::Path(out),
        ],
    }
}

fn failed(failure: Failure) -> Option<(Stage, Action<'static>)> {
    Some((Stage::Failed, Action::Finish { outcome: Err(failure) }))
}

fn fetches(steps: &[(Stage, Action<'_>)]) -> usize {
    steps.iter().filter(|(_, action)| matches!(action, Action::Fetch { .. })).count()
}

#[test]
fn run_begins_with_the_cache_probe() {
    let plan = plan();
    assert_eq!(
        step(&plan, Stage::Start, Event::Begin),
        Some((Stage::CacheCheck, Action::ProbeArtifact { file: JAR }))
    );
}

#[test]
fn cache_hit_goes_on_to_the_output_directory() {
    let plan = plan();
    assert_eq!(
        step(&plan, Stage::CacheCheck, Event::Found(true)),
        Some((Stage::OutputCheck, Action::ProbeOutput { dir: &PathBuf::from("./gen") }))
    );
}

#[test]
fn cache_miss_looks_for_the_cache_directory() {
    let plan = plan();
    assert_eq!(
        step(&plan, Stage::CacheCheck, Event::Found(false)),
        Some((Stage::CacheDirCheck, Action::ProbeCacheDir { dir: &PathBuf::from("./target") }))
    );
}

#[test]
fn cache_miss_without_a_directory_is_an_invalid_destination() {
    let plan = Plan::assemble(request(), "./target", None);
    assert_eq!(
        step(&plan, Stage::CacheCheck, Event::Found(false)),
        failed(Failure::InvalidDestination)
    );
    assert_eq!(
        step(&plan, Stage::CacheDirCheck, Event::Found(false)),
        failed(Failure::InvalidDestination)
    );
}

#[test]
fn missing_cache_directory_is_created() {
    let plan = plan();
    assert_eq!(
        step(&plan, Stage::CacheDirCheck, Event::Found(false)),
        Some((Stage::CacheDirCreate, Action::CreateCacheDir { dir: &PathBuf::from("./target") }))
    );
}

#[test]
fn existing_cache_directory_leads_to_the_fetch() {
    let plan = plan();
    assert_eq!(
        step(&plan, Stage::CacheDirCheck, Event::Found(true)),
        Some((Stage::Download, Action::Fetch { url: URL, dest: JAR }))
    );
}

#[test]
fn created_cache_directory_leads_to_the_fetch() {
    let plan = plan();
    assert_eq!(
        step(&plan, Stage::CacheDirCreate, Event::Completed),
        Some((Stage::Download, Action::Fetch { url: URL, dest: JAR }))
    );
}

#[test]
fn fetch_uses_the_version_of_the_request() {
    let request = GenerationRequest::new(
        Some(String::from("7.0.1")),
        PathBuf::from("api.yaml"),
        PathBuf::from("./gen"),
        String::from("go"),
        None,
        None,
    );
    let plan = Plan::prepare(request, "/var/cache");
    assert_eq!(
        step(&plan, Stage::CacheDirCheck, Event::Found(true)),
        Some((
            Stage::Download,
            Action::Fetch {
                url: "https://repo1.maven.org/maven2/org/openapitools/openapi-generator-cli/7.0.1/openapi-generator-cli-7.0.1.jar",
                dest: "/var/cache/openapi-generator-cli-7.0.1.jar",
            }
        ))
    );
}

#[test]
fn failed_directory_creation_fails_the_run() {
    let plan = plan();
    assert_eq!(
        step(&plan, Stage::CacheDirCreate, Event::Faulted(String::from("permission denied"))),
        failed(Failure::CacheDir(String::from("permission denied")))
    );
}

#[test]
fn finished_fetch_goes_on_to_the_output_directory() {
    let plan = plan();
    assert_eq!(
        step(&plan, Stage::Download, Event::Completed),
        Some((Stage::OutputCheck, Action::ProbeOutput { dir: &PathBuf::from("./gen") }))
    );
}

#[test]
fn failed_fetch_fails_the_run() {
    let plan = plan();
    assert_eq!(
        step(&plan, Stage::Download, Event::Faulted(String::from("HTTP status 404"))),
        failed(Failure::Download(String::from("HTTP status 404")))
    );
}

#[test]
fn existing_output_directory_is_removed() {
    let plan = plan();
    assert_eq!(
        step(&plan, Stage::OutputCheck, Event::Found(true)),
        Some((Stage::OutputClear, Action::ClearOutput { dir: &PathBuf::from("./gen") }))
    );
}

#[test]
fn absent_output_directory_leads_to_the_launch() {
    let plan = plan();
    let spec = PathBuf::from("api.yaml");
    let out = PathBuf::from("./gen");
    assert_eq!(
        step(&plan, Stage::OutputCheck, Event::Found(false)),
        Some((Stage::Invoke, launch(&spec, &out)))
    );
}

#[test]
fn removed_output_directory_leads_to_the_launch() {
    let plan = plan();
    let spec = PathBuf::from("api.yaml");
    let out = PathBuf::from("./gen");
    assert_eq!(
        step(&plan, Stage::OutputClear, Event::Completed),
        Some((Stage::Invoke, launch(&spec, &out)))
    );
}

#[test]
fn failed_removal_fails_the_run() {
    let plan = plan();
    assert_eq!(
        step(&plan, Stage::OutputClear, Event::Faulted(String::from("directory in use"))),
        failed(Failure::Clear(String::from("directory in use")))
    );
}

#[test]
fn successful_exit_succeeds() {
    let plan = plan();
    assert_eq!(
        step(&plan, Stage::Invoke, Event::Exited(true)),
        Some((Stage::Succeeded, Action::Finish { outcome: Ok(()) }))
    );
}

#[test]
fn unsuccessful_exit_fails_the_run() {
    let plan = plan();
    assert_eq!(step(&plan, Stage::Invoke, Event::Exited(false)), failed(Failure::Generation));
}

#[test]
fn failed_launch_fails_the_run() {
    let plan = plan();
    assert_eq!(
        step(&plan, Stage::Invoke, Event::Faulted(String::from("java: not found"))),
        failed(Failure::Launch(String::from("java: not found")))
    );
}

#[test]
fn finished_runs_wait_for_nothing() {
    let plan = plan();
    for stage in [Stage::Succeeded, Stage::Failed] {
        assert_eq!(step(&plan, stage, Event::Begin), None);
        assert_eq!(step(&plan, stage, Event::Found(true)), None);
        assert_eq!(step(&plan, stage, Event::Found(false)), None);
        assert_eq!(step(&plan, stage, Event::Completed), None);
        assert_eq!(step(&plan, stage, Event::Faulted(String::from("late"))), None);
        assert_eq!(step(&plan, stage, Event::Exited(true)), None);
        assert_eq!(step(&plan, stage, Event::Exited(false)), None);
    }
}

#[test]
fn only_the_start_waits_for_the_beginning() {
    let plan = plan();
    for stage in all_stages() {
        assert_eq!(step(&plan, stage, Event::Begin).is_some(), stage == Stage::Start);
    }
}

#[test]
fn only_probing_stages_wait_for_a_probe() {
    let plan = plan();
    for stage in all_stages() {
        let probing = matches!(stage, Stage::CacheCheck | Stage::CacheDirCheck | Stage::OutputCheck);
        assert_eq!(step(&plan, stage, Event::Found(true)).is_some(), probing);
        assert_eq!(step(&plan, stage, Event::Found(false)).is_some(), probing);
    }
}

#[test]
fn only_working_stages_wait_for_completion() {
    let plan = plan();
    for stage in all_stages() {
        let working =
            matches!(stage, Stage::CacheDirCreate | Stage::Download | Stage::OutputClear);
        assert_eq!(step(&plan, stage, Event::Completed).is_some(), working);
    }
}

#[test]
fn only_stages_with_work_under_way_wait_for_a_fault() {
    let plan = plan();
    for stage in all_stages() {
        let fallible = matches!(
            stage,
            Stage::CacheDirCreate | Stage::Download | Stage::OutputClear | Stage::Invoke
        );
        assert_eq!(step(&plan, stage, Event::Faulted(String::from("x"))).is_some(), fallible);
    }
}

#[test]
fn only_the_invocation_waits_for_an_exit() {
    let plan = plan();
    for stage in all_stages() {
        assert_eq!(step(&plan, stage, Event::Exited(true)).is_some(), stage == Stage::Invoke);
        assert_eq!(step(&plan, stage, Event::Exited(false)).is_some(), stage == Stage::Invoke);
    }
}

#[test]
fn failure_messages() {
    assert_eq!(Failure::InvalidDestination.message(), "Invalid destination path");
    assert_eq!(Failure::Generation.message(), "Failed to generate code.");
    assert_eq!(Failure::CacheDir(String::from("a")).message(), "a");
    assert_eq!(Failure::Download(String::from("b")).message(), "b");
    assert_eq!(Failure::Clear(String::from("c")).message(), "c");
    assert_eq!(Failure::Launch(String::from("d")).message(), "d");
}

#[test]
fn populated_cache_and_existing_output_end_to_end() {
    let plan = plan();
    let spec = PathBuf::from("api.yaml");
    let out = PathBuf::from("./gen");
    let steps = replay(
        &plan,
        vec![
            Event::Begin,
            Event::Found(true),
            Event::Found(true),
            Event::Completed,
            Event::Exited(true),
        ],
    );
    assert_eq!(
        steps,
        vec![
            (Stage::CacheCheck, Action::ProbeArtifact { file: JAR }),
            (Stage::OutputCheck, Action::ProbeOutput { dir: &out }),
            (Stage::OutputClear, Action::ClearOutput { dir: &out }),
            (Stage::Invoke, launch(&spec, &out)),
            (Stage::Succeeded, Action::Finish { outcome: Ok(()) }),
        ]
    );
}

#[test]
fn populated_cache_and_absent_output_end_to_end() {
    let plan = plan();
    let spec = PathBuf::from("api.yaml");
    let out = PathBuf::from("./gen");
    let steps = replay(
        &plan,
        vec![Event::Begin, Event::Found(true), Event::Found(false), Event::Exited(true)],
    );
    assert_eq!(
        steps,
        vec![
            (Stage::CacheCheck, Action::ProbeArtifact { file: JAR }),
            (Stage::OutputCheck, Action::ProbeOutput { dir: &out }),
            (Stage::Invoke, launch(&spec, &out)),
            (Stage::Succeeded, Action::Finish { outcome: Ok(()) }),
        ]
    );
}

#[test]
fn cache_hit_makes_no_fetch() {
    let plan = plan();
    let steps = replay(
        &plan,
        vec![
            Event::Begin,
            Event::Found(true),
            Event::Found(true),
            Event::Completed,
            Event::Exited(false),
        ],
    );
    assert_eq!(steps.len(), 5);
    assert_eq!(fetches(&steps), 0);
}

#[test]
fn cache_miss_makes_one_fetch() {
    let plan = plan();
    let steps = replay(
        &plan,
        vec![
            Event::Begin,
            Event::Found(false),
            Event::Found(false),
            Event::Completed,
            Event::Completed,
            Event::Found(false),
            Event::Exited(true),
        ],
    );
    assert_eq!(steps.len(), 7);
    assert_eq!(fetches(&steps), 1);
    assert_eq!(steps[3], (Stage::Download, Action::Fetch { url: URL, dest: JAR }));
    assert_eq!(steps[6], (Stage::Succeeded, Action::Finish { outcome: Ok(()) }));
}

#[test]
fn longest_run_has_eight_steps() {
    let plan = plan();
    let steps = replay(
        &plan,
        vec![
            Event::Begin,
            Event::Found(false),
            Event::Found(false),
            Event::Completed,
            Event::Completed,
            Event::Found(true),
            Event::Completed,
            Event::Exited(true),
            Event::Begin,
        ],
    );
    assert_eq!(steps.len(), 8);
    assert_eq!(steps[7].0, Stage::Succeeded);
}

#[test]
fn second_run_clears_what_the_first_left() {
    let plan = plan();
    let out = PathBuf::from("./gen");
    let first = replay(
        &plan,
        vec![Event::Begin, Event::Found(true), Event::Found(false), Event::Exited(true)],
    );
    assert_eq!(first.last().map(|last| last.0), Some(Stage::Succeeded));
    let second = replay(
        &plan,
        vec![
            Event::Begin,
            Event::Found(true),
            Event::Found(true),
            Event::Completed,
            Event::Exited(true),
        ],
    );
    assert_eq!(second[2], (Stage::OutputClear, Action::ClearOutput { dir: &out }));
    assert!(matches!(second[3].1, Action::Launch { .. }));
}

#[test]
fn unsuccessful_exit_ends_the_run_with_failure() {
    let plan = plan();
    let steps = replay(
        &plan,
        vec![
            Event::Begin,
            Event::Found(true),
            Event::Found(false),
            Event::Exited(false),
            Event::Begin,
        ],
    );
    assert_eq!(steps.len(), 4);
    assert_eq!(
        steps[3],
        (Stage::Failed, Action::Finish { outcome: Err(Failure::Generation) })
    );
}

#[test]
fn run_stops_at_an_event_it_does_not_wait_for() {
    let plan = plan();
    let steps = replay(&plan, vec![Event::Begin, Event::Completed, Event::Found(true)]);
    assert_eq!(steps.len(), 1);
    assert!(replay(&plan, vec![Event::Found(true)]).is_empty());
}

#[test]
fn failed_download_never_launches() {
    let plan = plan();
    let steps = replay(
        &plan,
        vec![
            Event::Begin,
            Event::Found(false),
            Event::Found(true),
            Event::Faulted(String::from("connection refused")),
            Event::Found(false),
        ],
    );
    assert_eq!(steps.len(), 4);
    assert!(steps.iter().all(|(_, action)| !matches!(action, Action::Launch { .. })));
    assert_eq!(
        steps[3],
        (
            Stage::Failed,
            Action::Finish { outcome: Err(Failure::Download(String::from("connection refused"))) }
        )
    );
}

#[test]
fn replay_of_nothing_takes_no_step() {
    let plan = plan();
    assert!(replay(&plan, vec![]).is_empty());
}

#[test]
fn replay_agrees_with_single_steps() {
    let plan = plan();
    let steps = replay(&plan, vec![Event::Begin, Event::Found(false), Event::Found(true)]);
    assert_eq!(steps.len(), 3);
    assert_eq!(Some(&steps[0]), step(&plan, Stage::Start, Event::Begin).as_ref());
    assert_eq!(Some(&steps[1]), step(&plan, Stage::CacheCheck, Event::Found(false)).as_ref());
    assert_eq!(Some(&steps[2]), step(&plan, Stage::CacheDirCheck, Event::Found(true)).as_ref());
}

#[test]
fn replay_ignores_what_follows_a_stop() {
    let plan = plan();
    let steps = replay(
        &plan,
        vec![Event::Begin, Event::Exited(true), Event::Found(true), Event::Found(false)],
    );
    assert_eq!(steps, vec![(Stage::CacheCheck, Action::ProbeArtifact { file: JAR })]);
}
