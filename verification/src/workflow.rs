//! The run as a state machine: which outside work is asked for, in which
//! order, and how the run ends.
//!
//! A run goes through its stages in one direction only:
//!
//! ```text
//! Start -> CacheCheck -> [CacheDirCheck -> [CacheDirCreate] -> Download]
//!       -> OutputCheck -> [OutputClear] -> Invoke -> Succeeded | Failed
//! ```
//!
//! The driver starts at [`Stage::Start`] with [`Event::Begin`]. Each call of
//! [`step`] answers with the next stage and one action. The driver performs
//! the action and reports how it went with the next event, until the action
//! is [`Action::Finish`].

use crate::command::{generator_args, spec_generator_args, Arg, ArgView};
use crate::plan::{Plan, PlanView};
use std::path::PathBuf;
use vstd::prelude::*;

verus! {

/// Where a run stands.
#[derive(Debug, Clone, Copy, PartialEq, Eq, Structural)]
pub enum Stage {
    /// Nothing has been asked for yet.
    Start,
    /// Waiting to learn whether the cache file exists.
    CacheCheck,
    /// Waiting to learn whether the directory of the cache file exists.
    CacheDirCheck,
    /// Waiting for the directory of the cache file to be created.
    CacheDirCreate,
    /// Waiting for the artifact to be fetched into the cache file.
    Download,
    /// Waiting to learn whether the output directory exists.
    OutputCheck,
    /// Waiting for the output directory to be removed.
    OutputClear,
    /// Waiting for the generator process to exit.
    Invoke,
    /// The run ended and the generator reported success.
    Succeeded,
    /// The run ended with a failure.
    Failed,
}

/// What the driver reports back.
#[derive(Debug, PartialEq, Eq)]
pub enum Event {
    /// The run begins.
    Begin,
    /// A probe was made: the path exists, or it does not.
    Found(bool),
    /// The work asked for was done.
    Completed,
    /// The work asked for could not be done, for the reason given.
    Faulted(String),
    /// The generator process ran and exited, with success or without.
    Exited(bool),
}

/// The mathematical content of an [`Event`].
pub enum EventView {
    Begin,
    Found(bool),
    Completed,
    Faulted(Seq<char>),
    Exited(bool),
}

impl View for Event {
    type V = EventView;

    open spec fn view(&self) -> EventView {
        match *self {
            Event::Begin => EventView::Begin,
            Event::Found(present) => EventView::Found(present),
            Event::Completed => EventView::Completed,
            Event::Faulted(reason) => EventView::Faulted(reason@),
            Event::Exited(success) => EventView::Exited(success),
        }
    }
}

/// Why a run failed.
#[derive(Debug, PartialEq, Eq)]
pub enum Failure {
    /// The path of the cache file names no directory to put it in.
    InvalidDestination,
    /// The directory of the cache file could not be created.
    CacheDir(String),
    /// The artifact could not be fetched or stored.
    Download(String),
    /// The output directory could not be removed.
    Clear(String),
    /// The generator process could not be started.
    Launch(String),
    /// The generator process exited without success.
    Generation,
}

/// The mathematical content of a [`Failure`].
pub enum FailureView {
    InvalidDestination,
    CacheDir(Seq<char>),
    Download(Seq<char>),
    Clear(Seq<char>),
    Launch(Seq<char>),
    Generation,
}

impl View for Failure {
    type V = FailureView;

    open spec fn view(&self) -> FailureView {
        match *self {
            Failure::InvalidDestination => FailureView::InvalidDestination,
            Failure::CacheDir(reason) => FailureView::CacheDir(reason@),
            Failure::Download(reason) => FailureView::Download(reason@),
            Failure::Clear(reason) => FailureView::Clear(reason@),
            Failure::Launch(reason) => FailureView::Launch(reason@),
            Failure::Generation => FailureView::Generation,
        }
    }
}

impl FailureView {
    /// The text that describes the failure: a fixed sentence for the two
    /// failures that the run itself detects, else the reason as the driver
    /// reported it.
    pub open spec fn message(self) -> Seq<char> {
        match self {
            FailureView::InvalidDestination => "Invalid destination path"@,
            FailureView::CacheDir(reason) => reason,
            FailureView::Download(reason) => reason,
            FailureView::Clear(reason) => reason,
            FailureView::Launch(reason) => reason,
            FailureView::Generation => "Failed to generate code."@,
        }
    }
}

impl Failure {
    /// Returns the text that describes the failure.
    pub fn message(&self) -> (text: String)
        ensures
            text@ == self@.message(),
    {
        match self {
            Failure::InvalidDestination => String::from_str("Invalid destination path"),
            Failure::CacheDir(reason) => reason.clone(),
            Failure::Download(reason) => reason.clone(),
            Failure::Clear(reason) => reason.clone(),
            Failure::Launch(reason) => reason.clone(),
            Failure::Generation => String::from_str("Failed to generate code."),
        }
    }
}

/// What the driver is asked to do next.
#[derive(Debug, PartialEq, Eq)]
pub enum Action<'a> {
    /// Find out whether the cache file exists.
    ProbeArtifact { file: &'a str },
    /// Find out whether the directory of the cache file exists.
    ProbeCacheDir { dir: &'a PathBuf },
    /// Create the directory of the cache file, with its ancestors.
    CreateCacheDir { dir: &'a PathBuf },
    /// Make one request to `url` and store what it returns in `dest`.
    Fetch { url: &'a str, dest: &'a str },
    /// Find out whether the output directory exists.
    ProbeOutput { dir: &'a PathBuf },
    /// Remove the output directory with all that it holds.
    ClearOutput { dir: &'a PathBuf },
    /// Run `program` with `args` and wait for it to exit.
    Launch { program: &'a str, args: Vec<Arg<'a>> },
    /// Stop: the run has ended with `outcome`.
    Finish { outcome: Result<(), Failure> },
}

/// The mathematical content of an [`Action`].
pub enum ActionView {
    ProbeArtifact { file: Seq<char> },
    ProbeCacheDir { dir: PathBuf },
    CreateCacheDir { dir: PathBuf },
    Fetch { url: Seq<char>, dest: Seq<char> },
    ProbeOutput { dir: PathBuf },
    ClearOutput { dir: PathBuf },
    Launch { program: Seq<char>, args: Seq<ArgView> },
    Finish { outcome: Result<(), FailureView> },
}

impl<'a> View for Action<'a> {
    type V = ActionView;

    open spec fn view(&self) -> ActionView {
        match *self {
            Action::ProbeArtifact { file } => ActionView::ProbeArtifact { file: file@ },
            Action::ProbeCacheDir { dir } => ActionView::ProbeCacheDir { dir: *dir },
            Action::CreateCacheDir { dir } => ActionView::CreateCacheDir { dir: *dir },
            Action::Fetch { url, dest } => ActionView::Fetch { url: url@, dest: dest@ },
            Action::ProbeOutput { dir } => ActionView::ProbeOutput { dir: *dir },
            Action::ClearOutput { dir } => ActionView::ClearOutput { dir: *dir },
            Action::Launch { program, args } => ActionView::Launch {
                program: program@,
                args: args.deep_view(),
            },
            Action::Finish { outcome } => ActionView::Finish {
                outcome: match outcome {
                    Ok(_) => Ok(()),
                    Err(failure) => Err(failure@),
                },
            },
        }
    }
}

/// The program that runs the generator artifact.
pub open spec fn spec_runtime() -> Seq<char> {
    "java"@
}

/// The run ends with `failure`.
pub open spec fn spec_fail(failure: FailureView) -> (Stage, ActionView) {
    (Stage::Failed, ActionView::Finish { outcome: Err(failure) })
}

/// The run ends with success.
pub open spec fn spec_succeed() -> (Stage, ActionView) {
    (Stage::Succeeded, ActionView::Finish { outcome: Ok(()) })
}

/// The run looks for the cache file.
pub open spec fn spec_enter_cache_check(plan: PlanView) -> (Stage, ActionView) {
    (Stage::CacheCheck, ActionView::ProbeArtifact { file: plan.artifact })
}

/// The run looks for the directory of the cache file, or fails where the
/// file's path names none.
pub open spec fn spec_enter_cache_dir_check(plan: PlanView) -> (Stage, ActionView) {
    match plan.cache_dir {
        Some(dir) => (Stage::CacheDirCheck, ActionView::ProbeCacheDir { dir }),
        None => spec_fail(FailureView::InvalidDestination),
    }
}

/// The run creates the directory of the cache file, or fails where the file's
/// path names none.
pub open spec fn spec_enter_cache_dir_create(plan: PlanView) -> (Stage, ActionView) {
    match plan.cache_dir {
        Some(dir) => (Stage::CacheDirCreate, ActionView::CreateCacheDir { dir }),
        None => spec_fail(FailureView::InvalidDestination),
    }
}

/// The run fetches the artifact from the plan's address into the cache file.
pub open spec fn spec_enter_download(plan: PlanView) -> (Stage, ActionView) {
    (Stage::Download, ActionView::Fetch { url: plan.url, dest: plan.artifact })
}

/// The run looks for the output directory.
pub open spec fn spec_enter_output_check(plan: PlanView) -> (Stage, ActionView) {
    (Stage::OutputCheck, ActionView::ProbeOutput { dir: plan.request.output_dir })
}

/// The run removes the output directory.
pub open spec fn spec_enter_output_clear(plan: PlanView) -> (Stage, ActionView) {
    (Stage::OutputClear, ActionView::ClearOutput { dir: plan.request.output_dir })
}

/// The run starts the generator on the cached artifact.
pub open spec fn spec_enter_invoke(plan: PlanView) -> (Stage, ActionView) {
    (
        Stage::Invoke,
        ActionView::Launch {
            program: spec_runtime(),
            args: spec_generator_args(plan.artifact, plan.request),
        },
    )
}

/// The transition of the run in `stage` on `event`: the next stage and the
/// action to perform, or `None` where `stage` does not wait for `event`.
pub open spec fn spec_step(plan: PlanView, stage: Stage, event: EventView) -> Option<
    (Stage, ActionView),
> {
    match stage {
        Stage::Start => match event {
            EventView::Begin => Some(spec_enter_cache_check(plan)),
            _ => None,
        },
        Stage::CacheCheck => match event {
            EventView::Found(present) => Some(
                if present {
                    spec_enter_output_check(plan)
                } else {
                    spec_enter_cache_dir_check(plan)
                },
            ),
            _ => None,
        },
        Stage::CacheDirCheck => match event {
            EventView::Found(present) => Some(
                if present {
                    spec_enter_download(plan)
                } else {
                    spec_enter_cache_dir_create(plan)
                },
            ),
            _ => None,
        },
        Stage::CacheDirCreate => match event {
            EventView::Completed => Some(spec_enter_download(plan)),
            EventView::Faulted(reason) => Some(spec_fail(FailureView::CacheDir(reason))),
            _ => None,
        },
        Stage::Download => match event {
            EventView::Completed => Some(spec_enter_output_check(plan)),
            EventView::Faulted(reason) => Some(spec_fail(FailureView::Download(reason))),
            _ => None,
        },
        Stage::OutputCheck => match event {
            EventView::Found(present) => Some(
                if present {
                    spec_enter_output_clear(plan)
                } else {
                    spec_enter_invoke(plan)
                },
            ),
            _ => None,
        },
        Stage::OutputClear => match event {
            EventView::Completed => Some(spec_enter_invoke(plan)),
            EventView::Faulted(reason) => Some(spec_fail(FailureView::Clear(reason))),
            _ => None,
        },
        Stage::Invoke => match event {
            EventView::Exited(success) => Some(
                if success {
                    spec_succeed()
                } else {
                    spec_fail(FailureView::Generation)
                },
            ),
            EventView::Faulted(reason) => Some(spec_fail(FailureView::Launch(reason))),
            _ => None,
        },
        Stage::Succeeded => None,
        Stage::Failed => None,
    }
}

/// What a run asks for when it enters `stage`: each stage has its one
/// action, fixed by the plan, and a failed run its one failure.
pub open spec fn spec_asks(plan: PlanView, stage: Stage, action: ActionView) -> bool {
    match stage {
        Stage::Start => false,
        Stage::CacheCheck => action == ActionView::ProbeArtifact { file: plan.artifact },
        Stage::CacheDirCheck => plan.cache_dir matches Some(dir) && action
            == (ActionView::ProbeCacheDir { dir }),
        Stage::CacheDirCreate => plan.cache_dir matches Some(dir) && action
            == (ActionView::CreateCacheDir { dir }),
        Stage::Download => action == (ActionView::Fetch { url: plan.url, dest: plan.artifact }),
        Stage::OutputCheck => action == (ActionView::ProbeOutput { dir: plan.request.output_dir }),
        Stage::OutputClear => action == (ActionView::ClearOutput { dir: plan.request.output_dir }),
        Stage::Invoke => action == (ActionView::Launch {
            program: spec_runtime(),
            args: spec_generator_args(plan.artifact, plan.request),
        }),
        Stage::Succeeded => action == (ActionView::Finish { outcome: Ok(()) }),
        Stage::Failed => action matches ActionView::Finish { outcome: Err(_) },
    }
}

/// The stage and event from which a transition can lead into `next`.
pub open spec fn spec_leads_to(stage: Stage, event: EventView, next: Stage) -> bool {
    match next {
        Stage::Start => false,
        Stage::CacheCheck => stage == Stage::Start && event == EventView::Begin,
        Stage::CacheDirCheck => stage == Stage::CacheCheck && event == EventView::Found(false),
        Stage::CacheDirCreate => stage == Stage::CacheDirCheck && event == EventView::Found(false),
        Stage::Download => {
            ||| stage == Stage::CacheDirCheck && event == EventView::Found(true)
            ||| stage == Stage::CacheDirCreate && event == EventView::Completed
        },
        Stage::OutputCheck => {
            ||| stage == Stage::CacheCheck && event == EventView::Found(true)
            ||| stage == Stage::Download && event == EventView::Completed
        },
        Stage::OutputClear => stage == Stage::OutputCheck && event == EventView::Found(true),
        Stage::Invoke => {
            ||| stage == Stage::OutputCheck && event == EventView::Found(false)
            ||| stage == Stage::OutputClear && event == EventView::Completed
        },
        Stage::Succeeded => stage == Stage::Invoke && event == EventView::Exited(true),
        Stage::Failed => {
            ||| stage == Stage::Invoke && event == EventView::Exited(false)
            ||| event is Faulted && (stage == Stage::CacheDirCreate || stage == Stage::Download
                || stage == Stage::OutputClear || stage == Stage::Invoke)
            ||| event == EventView::Found(false) && (stage == Stage::CacheCheck || stage
                == Stage::CacheDirCheck)
        },
    }
}

/// The failure that `event` brings about in `stage`, for the stages and events
/// that end a run with a failure.
pub open spec fn spec_failure(stage: Stage, event: EventView) -> FailureView {
    match event {
        EventView::Faulted(reason) => match stage {
            Stage::CacheDirCreate => FailureView::CacheDir(reason),
            Stage::Download => FailureView::Download(reason),
            Stage::OutputClear => FailureView::Clear(reason),
            _ => FailureView::Launch(reason),
        },
        EventView::Exited(_) => FailureView::Generation,
        _ => FailureView::InvalidDestination,
    }
}

/// A transition asks for the action of the stage it enters, enters a stage
/// only from the stages and on the events that lead to it, and where it
/// fails the run, fails it with the failure that its stage and event bring
/// about.
pub proof fn lemma_step_shape(plan: PlanView, stage: Stage, event: EventView)
    ensures
        spec_step(plan, stage, event) matches Some(next) ==> {
            &&& spec_asks(plan, next.0, next.1)
            &&& spec_leads_to(stage, event, next.0)
            &&& next.0 == Stage::Failed ==> next.1 == (ActionView::Finish {
                outcome: Err(spec_failure(stage, event)),
            })
        },
{
}

/// The mathematical content of what [`step`] returns.
pub open spec fn spec_step_view(next: Option<(Stage, Action)>) -> Option<(Stage, ActionView)> {
    match next {
        Some((stage, action)) => Some((stage, action@)),
        None => None,
    }
}

fn fail<'a>(failure: Failure) -> (next: (Stage, Action<'a>))
    ensures
        (next.0, next.1@) == spec_fail(failure@),
{
    (Stage::Failed, Action::Finish { outcome: Err(failure) })
}

fn enter_cache_dir_check<'a>(plan: &'a Plan) -> (next: (Stage, Action<'a>))
    ensures
        (next.0, next.1@) == spec_enter_cache_dir_check(plan@),
{
    match plan.cache_dir() {
        Some(dir) => (Stage::CacheDirCheck, Action::ProbeCacheDir { dir }),
        None => fail(Failure::InvalidDestination),
    }
}

fn enter_cache_dir_create<'a>(plan: &'a Plan) -> (next: (Stage, Action<'a>))
    ensures
        (next.0, next.1@) == spec_enter_cache_dir_create(plan@),
{
    match plan.cache_dir() {
        Some(dir) => (Stage::CacheDirCreate, Action::CreateCacheDir { dir }),
        None => fail(Failure::InvalidDestination),
    }
}

fn enter_download<'a>(plan: &'a Plan) -> (next: (Stage, Action<'a>))
    ensures
        (next.0, next.1@) == spec_enter_download(plan@),
{
    (Stage::Download, Action::Fetch { url: plan.url(), dest: plan.artifact() })
}

fn enter_output_check<'a>(plan: &'a Plan) -> (next: (Stage, Action<'a>))
    ensures
        (next.0, next.1@) == spec_enter_output_check(plan@),
{
    (Stage::OutputCheck, Action::ProbeOutput { dir: &plan.request().output_dir })
}

fn enter_invoke<'a>(plan: &'a Plan) -> (next: (Stage, Action<'a>))
    ensures
        (next.0, next.1@) == spec_enter_invoke(plan@),
{
    let args = generator_args(plan.artifact(), plan.request());
    (Stage::Invoke, Action::Launch { program: "java", args })
}

/// Advances the run of `plan` that stands in `stage` by `event`. Returns the
/// next stage and the action to perform, or `None` where `stage` does not
/// wait for `event`; a finished run waits for nothing.
pub fn step<'a>(plan: &'a Plan, stage: Stage, event: Event) -> (next: Option<(Stage, Action<'a>)>)
    ensures
        spec_step_view(next) == spec_step(plan@, stage, event@),
{
    match stage {
        Stage::Start => match event {
            Event::Begin => Some(
                (Stage::CacheCheck, Action::ProbeArtifact { file: plan.artifact() }),
            ),
            _ => None,
        },
        Stage::CacheCheck => match event {
            Event::Found(true) => Some(enter_output_check(plan)),
            Event::Found(false) => Some(enter_cache_dir_check(plan)),
            _ => None,
        },
        Stage::CacheDirCheck => match event {
            Event::Found(true) => Some(enter_download(plan)),
            Event::Found(false) => Some(enter_cache_dir_create(plan)),
            _ => None,
        },
        Stage::CacheDirCreate => match event {
            Event::Completed => Some(enter_download(plan)),
            Event::Faulted(reason) => Some(fail(Failure::CacheDir(reason))),
            _ => None,
        },
        Stage::Download => match event {
            Event::Completed => Some(enter_output_check(plan)),
            Event::Faulted(reason) => Some(fail(Failure::Download(reason))),
            _ => None,
        },
        Stage::OutputCheck => match event {
            Event::Found(true) => Some(
                (Stage::OutputClear, Action::ClearOutput { dir: &plan.request().output_dir }),
            ),
            Event::Found(false) => Some(enter_invoke(plan)),
            _ => None,
        },
        Stage::OutputClear => match event {
            Event::Completed => Some(enter_invoke(plan)),
            Event::Faulted(reason) => Some(fail(Failure::Clear(reason))),
            _ => None,
        },
        Stage::Invoke => match event {
            Event::Exited(true) => Some((Stage::Succeeded, Action::Finish { outcome: Ok(()) })),
            Event::Exited(false) => Some(fail(Failure::Generation)),
            Event::Faulted(reason) => Some(fail(Failure::Launch(reason))),
            _ => None,
        },
        Stage::Succeeded => None,
        Stage::Failed => None,
    }
}

} // verus!
