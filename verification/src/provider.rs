//! The provider lifecycle controller.
//!
//! A `CSharpProvider` owns the configuration and the project a successful
//! `init` produced. The hosting service serializes access to this state
//! (one lock per field); this module holds the state itself and every
//! decision made over it: installing a configuration, publishing or
//! discarding an init pipeline's project, and gating `evaluate` calls on
//! readiness.

use vstd::prelude::*;

use crate::evaluate::{
    not_initialized_outcome, capability_mismatch_outcome, EvaluateAction, QueryPlan,
    ReferenceCondition, SourceType,
};
use crate::init::{InitAction, InitPipeline, InitStep};
use crate::order::str_content_eq;

verus! {

/// The configuration an `init` call carries.
#[derive(Debug)]
pub struct Config {
    pub location: String,
    pub analysis_mode: String,
    pub provider_specific_config: Vec<(String, String)>,
}

/// The external tooling resolved from the provider-specific configuration.
#[derive(Debug)]
pub struct Tools {
    pub dotnet_install_cmd: Option<String>,
}

/// A project: immutable identity fields, plus the target framework and
/// source type the init pipeline fills in before the project is published.
#[derive(Debug)]
pub struct Project {
    pub location: String,
    pub db_path: String,
    pub analysis_mode: String,
    pub tools: Tools,
    pub target_framework: Option<String>,
    pub source_type: Option<SourceType>,
}

/// The provider: its database path and context-line setting are fixed at
/// construction; configuration and project change only through `init`.
#[derive(Debug)]
pub struct CSharpProvider {
    pub db_path: String,
    pub config: Option<Config>,
    pub project: Option<Project>,
    pub context_lines: usize,
}

impl CSharpProvider {
    /// A fresh provider is uninitialized: no configuration, no project.
    pub fn new(db_path: String, context_lines: usize) -> (p: CSharpProvider)
        ensures
            p.db_path == db_path,
            p.config is None,
            p.project is None,
            p.context_lines == context_lines,
    {
        CSharpProvider { db_path, config: None, project: None, context_lines }
    }

    /// A provider is ready exactly when a published project carries a
    /// source type to query with.
    pub open spec fn ready(self) -> bool {
        self.project matches Some(p) && p.source_type is Some
    }

    /// Install the configuration of a new `init` call. The current project
    /// — the previous generation's, if any — stays published until the new
    /// pipeline completes.
    pub fn store_config(&mut self, config: Config)
        ensures
            final(self).config == Some(config),
            final(self).project == old(self).project,
            final(self).db_path == old(self).db_path,
            final(self).context_lines == old(self).context_lines,
    {
        self.config = Some(config);
    }

    /// Begin an `init` run: derive a private project from the stored
    /// configuration and the resolved tools, and hand back the pipeline
    /// with its first action. Nothing of the provider's shared state
    /// changes until `complete_init`.
    pub fn begin_init(&self, tools: Tools) -> (r: (InitPipeline, InitAction))
        requires
            self.config is Some,
        ensures
            r.0.step == InitStep::DetectingFramework,
            self.config matches Some(c) ==> r.0.project.location == c.location
                && r.0.project.analysis_mode == c.analysis_mode,
            r.0.project.db_path == self.db_path,
            r.0.project.tools == tools,
            r.0.project.target_framework is None,
            r.0.project.source_type is None,
            !r.0.sdk_task_spawned,
            r.0.sdk_files_loaded is None,
            r.1 == InitAction::DetectFramework,
    {
        let config = self.config.as_ref().unwrap();
        let project = Project {
            location: config.location.clone(),
            db_path: self.db_path.clone(),
            analysis_mode: config.analysis_mode.clone(),
            tools,
            target_framework: None,
            source_type: None,
        };
        InitPipeline::start(project)
    }

    /// Publish a finished pipeline's project, or revert to uninitialized
    /// when the pipeline failed: failure is all-or-nothing, no partial
    /// project is retained.
    pub fn complete_init(&mut self, pipeline: InitPipeline)
        requires
            pipeline.step == InitStep::Done || pipeline.step == InitStep::Failed,
        ensures
            final(self).db_path == old(self).db_path,
            final(self).config == old(self).config,
            final(self).context_lines == old(self).context_lines,
            pipeline.step == InitStep::Done ==> final(self).project == Some(pipeline.project),
            pipeline.step == InitStep::Failed ==> final(self).project is None,
    {
        match pipeline.step {
            InitStep::Done => {
                self.project = Some(pipeline.project);
            },
            _ => {
                self.project = None;
            },
        }
    }

    /// Decide an `evaluate` request: an unsupported capability and an
    /// unready provider are logical failures answered at once; otherwise
    /// the plan names the query to run — the condition's location filter
    /// and pattern against the project's source type.
    pub fn plan_evaluate(&self, cap: &String, condition: &ReferenceCondition) -> (a:
        EvaluateAction)
        ensures
            cap@ != "referenced"@ ==> (a matches EvaluateAction::Respond(o) && !o.successful
                && o.error@ == "unable to find referenced capability"@ && !o.matched
                && o.incidents@.len() == 0),
            cap@ == "referenced"@ && !self.ready() ==> (a matches EvaluateAction::Respond(o)
                && !o.successful && o.error@ == "project may not be initialized"@ && !o.matched
                && o.incidents@.len() == 0),
            cap@ == "referenced"@ && self.ready() ==> (a matches EvaluateAction::RunQuery(q)
                && q.location == condition.location && q.pattern == condition.pattern && (
            self.project matches Some(p) && p.source_type == Some(q.source_type))),
    {
        if !str_content_eq(cap.as_str(), "referenced") {
            return EvaluateAction::Respond(capability_mismatch_outcome());
        }
        match &self.project {
            None => EvaluateAction::Respond(not_initialized_outcome()),
            Some(project) => match &project.source_type {
                None => EvaluateAction::Respond(not_initialized_outcome()),
                Some(source_type) => EvaluateAction::RunQuery(
                    QueryPlan {
                        location: condition.location,
                        pattern: condition.pattern.clone(),
                        source_type: source_type.duplicate(),
                    },
                ),
            },
        }
    }
}

} // verus!
