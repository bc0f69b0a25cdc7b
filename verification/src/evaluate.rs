//! The evaluate pipeline's decisions.
//!
//! An `evaluate` call asks whether the project references a pattern in a
//! given location kind. The service around the library parses the caller's
//! condition payload, runs the query the plan asks for, and hands the raw
//! outcome back; every decision — gating, query selection, and the shaping
//! of the response — is made here.

use vstd::prelude::*;

use crate::dedup::{dedup_post, deduplicate_results};
use crate::results::{ResultNode, views_of};

verus! {

/// Which program constructs a reference query searches.
#[derive(Clone, Copy, PartialEq, Eq, Structural, Debug)]
pub enum Locations {
    All,
    Method,
    Field,
    Class,
}

impl Default for Locations {
    /// An absent location filter means: search everywhere.
    fn default() -> (r: Locations)
        ensures
            r == Locations::All,
    {
        Locations::All
    }
}

/// The classification of the project's language/dialect, read from the
/// graph once it is built, used to parameterize queries.
#[derive(Debug)]
pub struct SourceType {
    pub name: String,
}

impl SourceType {
    /// An exact copy, with its value preserved.
    pub fn duplicate(&self) -> (r: SourceType)
        ensures
            r == *self,
    {
        SourceType { name: self.name.clone() }
    }
}

/// The deserialized shape of a `referenced` condition.
#[derive(Debug)]
pub struct ReferenceCondition {
    pub pattern: String,
    pub location: Locations,
    pub file_paths: Option<Vec<String>>,
}

/// What the query engine reported: raw matches, a distinguished "pattern
/// not found", or a failure with the engine's error text.
pub enum QueryOutcome {
    Found(Vec<ResultNode>),
    NotFound,
    Failed(String),
}

/// Raw matches handed back by the query engine carry well-formed spans.
pub open spec fn query_outcome_wf(o: QueryOutcome) -> bool {
    match o {
        QueryOutcome::Found(v) => forall|i: int| 0 <= i < v@.len() ==> (#[trigger] v@[i]).wf(),
        QueryOutcome::NotFound => true,
        QueryOutcome::Failed(_) => true,
    }
}

/// The caller-facing result of an `evaluate` call. Expected conditions are
/// never faults: they come back as `successful == false` with a message,
/// or as `matched == false` when nothing was found.
pub struct EvaluateOutcome {
    pub successful: bool,
    pub error: String,
    pub matched: bool,
    pub incidents: Vec<ResultNode>,
}

/// The query the evaluate pipeline asks the engine to run.
pub struct QueryPlan {
    pub location: Locations,
    pub pattern: String,
    pub source_type: SourceType,
}

/// What to do with an `evaluate` request: answer at once, or run a query
/// and feed its outcome to `finish_evaluate`.
pub enum EvaluateAction {
    Respond(EvaluateOutcome),
    RunQuery(QueryPlan),
}

/// The logical-failure outcome for a capability this provider does not
/// advertise.
pub fn capability_mismatch_outcome() -> (r: EvaluateOutcome)
    ensures
        !r.successful,
        r.error@ == "unable to find referenced capability"@,
        !r.matched,
        r.incidents@.len() == 0,
{
    EvaluateOutcome {
        successful: false,
        error: "unable to find referenced capability".to_owned(),
        matched: false,
        incidents: Vec::new(),
    }
}

/// The logical-failure outcome for an `evaluate` call that arrives before
/// a successful `init`.
pub fn not_initialized_outcome() -> (r: EvaluateOutcome)
    ensures
        !r.successful,
        r.error@ == "project may not be initialized"@,
        !r.matched,
        r.incidents@.len() == 0,
{
    EvaluateOutcome {
        successful: false,
        error: "project may not be initialized".to_owned(),
        matched: false,
        incidents: Vec::new(),
    }
}

/// Turn the query engine's outcome into the caller-facing response:
/// "not found" is a successful, matchless call; an engine failure is a
/// logical failure carrying the engine's text; raw matches are
/// deduplicated to one canonical, key-sorted incident per source location,
/// and `matched` says whether any remain.
pub fn finish_evaluate(outcome: QueryOutcome) -> (r: EvaluateOutcome)
    requires
        query_outcome_wf(outcome),
    ensures
        outcome matches QueryOutcome::NotFound ==> r.successful && r.error@.len() == 0
            && !r.matched && r.incidents@.len() == 0,
        outcome matches QueryOutcome::Failed(msg) ==> !r.successful && r.error@ == msg@
            && !r.matched && r.incidents@.len() == 0,
        outcome matches QueryOutcome::Found(v) ==> r.successful && r.error@.len() == 0
            && dedup_post(views_of(v@), views_of(r.incidents@)) && r.matched == (
        r.incidents@.len() > 0),
{
    match outcome {
        QueryOutcome::NotFound => EvaluateOutcome {
            successful: true,
            error: String::new(),
            matched: false,
            incidents: Vec::new(),
        },
        QueryOutcome::Failed(msg) => EvaluateOutcome {
            successful: false,
            error: msg,
            matched: false,
            incidents: Vec::new(),
        },
        QueryOutcome::Found(v) => {
            let incidents = deduplicate_results(&v);
            let matched = incidents.len() > 0;
            EvaluateOutcome { successful: true, error: String::new(), matched, incidents }
        },
    }
}

} // verus!
