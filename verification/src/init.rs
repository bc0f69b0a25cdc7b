//! The init pipeline.
//!
//! `init` turns a configuration into a queryable project: detect the target
//! framework, optionally start a concurrent SDK-install task, validate the
//! language configuration, build the graph, resolve dependencies, join the
//! SDK task, and persist to the database. The pipeline is a state machine:
//! each step's outside work is an `InitAction` the hosting service performs,
//! and the work's result comes back as an `InitEvent`. Framework-detection
//! and SDK failures degrade gracefully; validation, graph-build and
//! dependency-resolution failures are fatal to the call.

use vstd::prelude::*;

use crate::evaluate::SourceType;
use crate::framework::{is_modern_framework, modern_framework};
use crate::provider::{Project, Tools};

verus! {

/// Where the pipeline stands.
#[derive(Clone, Copy, PartialEq, Eq, Structural, Debug)]
pub enum InitStep {
    DetectingFramework,
    ValidatingLanguage,
    BuildingGraph,
    ResolvingDependencies,
    JoiningSdkTask,
    LoadingDatabase,
    Done,
    Failed,
}

/// The result of the outside work the previous action asked for.
pub enum InitEvent {
    FrameworkDetected(String),
    FrameworkDetectionFailed,
    LanguageValidated,
    LanguageValidationFailed,
    GraphBuilt(Option<SourceType>),
    GraphBuildFailed,
    DependenciesResolved,
    DependencyResolutionFailed,
    SdkTaskCompleted(usize),
    SdkTaskFailed,
    SdkTaskPanicked,
    DatabaseLoadFinished,
}

/// The SDK-install task to start concurrently with graph building.
pub struct SdkInstallPlan {
    pub framework: String,
    pub install_cmd: String,
}

/// How an `init` call ends.
pub struct InitReport {
    pub successful: bool,
    pub error: String,
}

/// The outside work the hosting service performs next.
pub enum InitAction {
    DetectFramework,
    ValidateLanguage(Option<SdkInstallPlan>),
    BuildGraph,
    ResolveDependencies,
    JoinSdkTask,
    LoadDatabase,
    Report(InitReport),
}

/// One `init` call's private, not-yet-published state: the project under
/// construction is installed into the provider only when the pipeline is
/// done, so readers never observe a half-built project.
pub struct InitPipeline {
    pub step: InitStep,
    pub project: Project,
    pub sdk_task_spawned: bool,
    pub sdk_files_loaded: Option<usize>,
}

/// The step reached when `event` arrives in `step`: the pure transition
/// relation of the pipeline. Detection failure skips SDK work but
/// continues; any outcome of the SDK task — completion, failure, or a
/// panic — continues to database loading; validation, graph-build and
/// dependency-resolution failures end the pipeline in `Failed`.
pub open spec fn step_after(step: InitStep, sdk_task_spawned: bool, event: InitEvent) -> InitStep {
    match (step, event) {
        (InitStep::DetectingFramework, InitEvent::FrameworkDetected(_)) =>
            InitStep::ValidatingLanguage,
        (InitStep::DetectingFramework, InitEvent::FrameworkDetectionFailed) =>
            InitStep::ValidatingLanguage,
        (InitStep::ValidatingLanguage, InitEvent::LanguageValidated) => InitStep::BuildingGraph,
        (InitStep::ValidatingLanguage, InitEvent::LanguageValidationFailed) => InitStep::Failed,
        (InitStep::BuildingGraph, InitEvent::GraphBuilt(_)) => InitStep::ResolvingDependencies,
        (InitStep::BuildingGraph, InitEvent::GraphBuildFailed) => InitStep::Failed,
        (InitStep::ResolvingDependencies, InitEvent::DependenciesResolved) => if sdk_task_spawned {
            InitStep::JoiningSdkTask
        } else {
            InitStep::LoadingDatabase
        },
        (InitStep::ResolvingDependencies, InitEvent::DependencyResolutionFailed) =>
            InitStep::Failed,
        (InitStep::JoiningSdkTask, InitEvent::SdkTaskCompleted(_)) => InitStep::LoadingDatabase,
        (InitStep::JoiningSdkTask, InitEvent::SdkTaskFailed) => InitStep::LoadingDatabase,
        (InitStep::JoiningSdkTask, InitEvent::SdkTaskPanicked) => InitStep::LoadingDatabase,
        (InitStep::LoadingDatabase, InitEvent::DatabaseLoadFinished) => InitStep::Done,
        _ => step,
    }
}

impl InitPipeline {
    /// Which events are meaningful in the current step.
    pub open spec fn accepts(self, event: InitEvent) -> bool {
        match (self.step, event) {
            (InitStep::DetectingFramework, InitEvent::FrameworkDetected(_)) => true,
            (InitStep::DetectingFramework, InitEvent::FrameworkDetectionFailed) => true,
            (InitStep::ValidatingLanguage, InitEvent::LanguageValidated) => true,
            (InitStep::ValidatingLanguage, InitEvent::LanguageValidationFailed) => true,
            (InitStep::BuildingGraph, InitEvent::GraphBuilt(_)) => true,
            (InitStep::BuildingGraph, InitEvent::GraphBuildFailed) => true,
            (InitStep::ResolvingDependencies, InitEvent::DependenciesResolved) => true,
            (InitStep::ResolvingDependencies, InitEvent::DependencyResolutionFailed) => true,
            (InitStep::JoiningSdkTask, InitEvent::SdkTaskCompleted(_)) => true,
            (InitStep::JoiningSdkTask, InitEvent::SdkTaskFailed) => true,
            (InitStep::JoiningSdkTask, InitEvent::SdkTaskPanicked) => true,
            (InitStep::LoadingDatabase, InitEvent::DatabaseLoadFinished) => true,
            _ => false,
        }
    }

    /// The identity of the project under construction never changes while
    /// the pipeline runs; only detection and graph building fill in its
    /// mutable fields.
    pub open spec fn project_identity_kept(a: Project, b: Project) -> bool {
        &&& a.location == b.location
        &&& a.db_path == b.db_path
        &&& a.analysis_mode == b.analysis_mode
        &&& a.tools == b.tools
    }

    /// Start an `init` run over a freshly constructed project: the first
    /// action is framework detection.
    pub fn start(project: Project) -> (r: (InitPipeline, InitAction))
        ensures
            r.0.step == InitStep::DetectingFramework,
            r.0.project == project,
            !r.0.sdk_task_spawned,
            r.0.sdk_files_loaded is None,
            r.1 == InitAction::DetectFramework,
    {
        (
            InitPipeline {
                step: InitStep::DetectingFramework,
                project,
                sdk_task_spawned: false,
                sdk_files_loaded: None,
            },
            InitAction::DetectFramework,
        )
    }

    /// Feed the outcome of the previous action to the pipeline; the new
    /// state and the next action come back.
    pub fn advance(self, event: InitEvent) -> (r: (InitPipeline, InitAction))
        requires
            self.accepts(event),
        ensures
            r.0.step == step_after(self.step, self.sdk_task_spawned, event),
            Self::project_identity_kept(self.project, r.0.project),
            // framework detection records the framework and decides the SDK task
            event matches InitEvent::FrameworkDetected(tfm) ==> {
                let eligible = modern_framework(tfm@)
                    && self.project.tools.dotnet_install_cmd is Some;
                &&& r.0.project.target_framework == Some(tfm)
                &&& r.0.sdk_task_spawned == eligible
                &&& (eligible ==> (r.1 matches InitAction::ValidateLanguage(Some(plan))
                    && plan.framework@ == tfm@ && Some(plan.install_cmd)
                    == self.project.tools.dotnet_install_cmd))
                &&& (!eligible ==> r.1 == InitAction::ValidateLanguage(None::<SdkInstallPlan>))
            },
            // detection failure degrades: no SDK task, the pipeline continues
            event matches InitEvent::FrameworkDetectionFailed ==> {
                &&& r.0.project.target_framework == self.project.target_framework
                &&& r.0.sdk_task_spawned == self.sdk_task_spawned
                &&& r.1 == InitAction::ValidateLanguage(None::<SdkInstallPlan>)
            },
            event matches InitEvent::LanguageValidated ==> r.1 == InitAction::BuildGraph,
            event matches InitEvent::LanguageValidationFailed ==> r.1 matches InitAction::Report(
                rep,
            ) && !rep.successful && rep.error@
                == "unable to create language configuration for project"@,
            // graph building records the source type read from the graph
            event matches InitEvent::GraphBuilt(st) ==> r.0.project.source_type == st && r.1
                == InitAction::ResolveDependencies,
            event matches InitEvent::GraphBuildFailed ==> r.1 matches InitAction::Report(rep)
                && !rep.successful && rep.error@ == "failed"@,
            event matches InitEvent::DependenciesResolved ==> (self.sdk_task_spawned ==> r.1
                == InitAction::JoinSdkTask) && (!self.sdk_task_spawned ==> r.1
                == InitAction::LoadDatabase),
            event matches InitEvent::DependencyResolutionFailed ==> r.1
                matches InitAction::Report(rep) && !rep.successful && rep.error@
                == "unable to resolve dependencies"@,
            // every outcome of the SDK task continues to database loading
            event matches InitEvent::SdkTaskCompleted(count) ==> r.0.sdk_files_loaded
                == Some(count) && r.1 == InitAction::LoadDatabase,
            event matches InitEvent::SdkTaskFailed ==> r.0.sdk_files_loaded
                == self.sdk_files_loaded && r.1 == InitAction::LoadDatabase,
            event matches InitEvent::SdkTaskPanicked ==> r.0.sdk_files_loaded
                == self.sdk_files_loaded && r.1 == InitAction::LoadDatabase,
            event matches InitEvent::DatabaseLoadFinished ==> r.1 matches InitAction::Report(rep)
                && rep.successful && rep.error@.len() == 0,
            // fields not touched by this event keep their values
            !(event matches InitEvent::FrameworkDetected(_)) ==> r.0.project.target_framework
                == self.project.target_framework && r.0.sdk_task_spawned
                == self.sdk_task_spawned,
            !(event matches InitEvent::GraphBuilt(_)) ==> r.0.project.source_type
                == self.project.source_type,
            !(event matches InitEvent::SdkTaskCompleted(_)) ==> r.0.sdk_files_loaded
                == self.sdk_files_loaded,
    {
        match &event {
            InitEvent::FrameworkDetected(tfm) => {
                let eligible: bool;
                let action: InitAction;
                match &self.project.tools.dotnet_install_cmd {
                    Some(cmd) => {
                        if is_modern_framework(tfm.as_str()) {
                            eligible = true;
                            action = InitAction::ValidateLanguage(
                                Some(
                                    SdkInstallPlan {
                                        framework: tfm.clone(),
                                        install_cmd: cmd.clone(),
                                    },
                                ),
                            );
                        } else {
                            eligible = false;
                            action = InitAction::ValidateLanguage(None);
                        }
                    },
                    None => {
                        eligible = false;
                        action = InitAction::ValidateLanguage(None);
                    },
                }
                let pipeline = InitPipeline {
                    step: InitStep::ValidatingLanguage,
                    project: Project { target_framework: Some(tfm.clone()), ..self.project },
                    sdk_task_spawned: eligible,
                    sdk_files_loaded: self.sdk_files_loaded,
                };
                (pipeline, action)
            },
            InitEvent::FrameworkDetectionFailed => (
                InitPipeline { step: InitStep::ValidatingLanguage, ..self },
                InitAction::ValidateLanguage(None),
            ),
            InitEvent::LanguageValidated => (
                InitPipeline { step: InitStep::BuildingGraph, ..self },
                InitAction::BuildGraph,
            ),
            InitEvent::LanguageValidationFailed => (
                InitPipeline { step: InitStep::Failed, ..self },
                InitAction::Report(
                    InitReport {
                        successful: false,
                        error: "unable to create language configuration for project".to_owned(),
                    },
                ),
            ),
            InitEvent::GraphBuilt(st) => {
                let source_type = match st {
                    Some(s) => Some(s.duplicate()),
                    None => None,
                };
                (
                    InitPipeline {
                        step: InitStep::ResolvingDependencies,
                        project: Project { source_type, ..self.project },
                        sdk_task_spawned: self.sdk_task_spawned,
                        sdk_files_loaded: self.sdk_files_loaded,
                    },
                    InitAction::ResolveDependencies,
                )
            },
            InitEvent::GraphBuildFailed => (
                InitPipeline { step: InitStep::Failed, ..self },
                InitAction::Report(
                    InitReport { successful: false, error: "failed".to_owned() },
                ),
            ),
            InitEvent::DependenciesResolved => {
                if self.sdk_task_spawned {
                    (
                        InitPipeline { step: InitStep::JoiningSdkTask, ..self },
                        InitAction::JoinSdkTask,
                    )
                } else {
                    (
                        InitPipeline { step: InitStep::LoadingDatabase, ..self },
                        InitAction::LoadDatabase,
                    )
                }
            },
            InitEvent::DependencyResolutionFailed => (
                InitPipeline { step: InitStep::Failed, ..self },
                InitAction::Report(
                    InitReport {
                        successful: false,
                        error: "unable to resolve dependencies".to_owned(),
                    },
                ),
            ),
            InitEvent::SdkTaskCompleted(count) => (
                InitPipeline {
                    step: InitStep::LoadingDatabase,
                    sdk_files_loaded: Some(*count),
                    ..self
                },
                InitAction::LoadDatabase,
            ),
            InitEvent::SdkTaskFailed => (
                InitPipeline { step: InitStep::LoadingDatabase, ..self },
                InitAction::LoadDatabase,
            ),
            InitEvent::SdkTaskPanicked => (
                InitPipeline { step: InitStep::LoadingDatabase, ..self },
                InitAction::LoadDatabase,
            ),
            InitEvent::DatabaseLoadFinished => (
                InitPipeline { step: InitStep::Done, ..self },
                InitAction::Report(InitReport { successful: true, error: String::new() }),
            ),
        }
    }
}

/// Graceful SDK degradation: whatever the SDK task's outcome — a loaded
/// file count, a failure, or a panic — the pipeline proceeds to load the
/// database and then completes; an SDK failure never makes the pipeline
/// fail. The same holds of framework detection: its failure still leads
/// through validation toward completion, only without an SDK task.
pub proof fn lemma_sdk_failure_not_fatal(event: InitEvent, sdk_task_spawned: bool)
    requires
        event matches InitEvent::SdkTaskCompleted(_) || event matches InitEvent::SdkTaskFailed
            || event matches InitEvent::SdkTaskPanicked,
    ensures
        step_after(InitStep::JoiningSdkTask, sdk_task_spawned, event)
            == InitStep::LoadingDatabase,
        step_after(InitStep::LoadingDatabase, sdk_task_spawned, InitEvent::DatabaseLoadFinished)
            == InitStep::Done,
        step_after(InitStep::DetectingFramework, sdk_task_spawned,
            InitEvent::FrameworkDetectionFailed) == InitStep::ValidatingLanguage,
{
}

} // verus!
