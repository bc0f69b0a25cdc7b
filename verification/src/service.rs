//! The fixed shapes of the service surface.
//!
//! Beyond `init` and `evaluate`, the provider's calls return documented
//! fixed responses: the capability list, the pass-through prepare call, a
//! single prepare-progress event, and empty dependency reports.

use vstd::prelude::*;

verus! {

/// A named analysis feature the provider advertises.
pub struct Capability {
    pub name: String,
    pub template_context: Option<String>,
}

/// The response to a `capabilities` call.
pub struct CapabilitiesResponse {
    pub capabilities: Vec<Capability>,
}

/// The response to an `init` call.
pub struct InitResponse {
    pub error: String,
    pub successful: bool,
    pub id: i64,
    pub builtin_config: Option<String>,
}

/// The response to a `prepare` call.
pub struct PrepareResponse {
    pub error: String,
}

/// The response to a `get_dependencies` call.
pub struct DependencyResponse {
    pub successful: bool,
    pub error: String,
    pub file_dep: Vec<String>,
}

/// The response to a `get_dependencies_dag` call.
pub struct DependencyDagResponse {
    pub successful: bool,
    pub error: String,
    pub file_dag_dep: Vec<String>,
}

/// The response to a `notify_file_changes` call.
pub struct NotifyFileChangesResponse {
    pub error: String,
}

/// The phase a progress event reports on.
#[derive(Clone, Copy, PartialEq, Eq, Structural, Debug)]
pub enum ProgressEventType {
    Prepare,
}

/// One event of the prepare-progress stream.
pub struct ProgressEvent {
    pub event_type: ProgressEventType,
    pub provider_name: String,
    pub files_processed: u64,
    pub total_files: u64,
}

/// The provider advertises exactly one capability: `referenced`.
pub fn capabilities_response() -> (r: CapabilitiesResponse)
    ensures
        r.capabilities@.len() == 1,
        r.capabilities@[0].name@ == "referenced"@,
        r.capabilities@[0].template_context is None,
{
    let mut capabilities: Vec<Capability> = Vec::new();
    capabilities.push(Capability { name: "referenced".to_owned(), template_context: None });
    CapabilitiesResponse { capabilities }
}

/// A successful `init` response.
pub fn init_success_response() -> (r: InitResponse)
    ensures
        r.successful,
        r.error@.len() == 0,
        r.id == 4,
        r.builtin_config is None,
{
    InitResponse { error: String::new(), successful: true, id: 4, builtin_config: None }
}

/// `prepare` is a no-op pass-through.
pub fn prepare_response() -> (r: PrepareResponse)
    ensures
        r.error@.len() == 0,
{
    PrepareResponse { error: String::new() }
}

/// The single event the prepare-progress stream carries before it closes.
pub fn prepare_progress_event() -> (r: ProgressEvent)
    ensures
        r.event_type == ProgressEventType::Prepare,
        r.provider_name@ == "c-sharp"@,
        r.files_processed == 0,
        r.total_files == 0,
{
    ProgressEvent {
        event_type: ProgressEventType::Prepare,
        provider_name: "c-sharp".to_owned(),
        files_processed: 0,
        total_files: 0,
    }
}

/// The provider reports no file dependencies.
pub fn dependency_response() -> (r: DependencyResponse)
    ensures
        r.successful,
        r.error@.len() == 0,
        r.file_dep@.len() == 0,
{
    DependencyResponse { successful: true, error: String::new(), file_dep: Vec::new() }
}

/// The provider reports no dependency DAG.
pub fn dependency_dag_response() -> (r: DependencyDagResponse)
    ensures
        r.successful,
        r.error@.len() == 0,
        r.file_dag_dep@.len() == 0,
{
    DependencyDagResponse { successful: true, error: String::new(), file_dag_dep: Vec::new() }
}

/// File-change notifications are acknowledged and ignored.
pub fn notify_file_changes_response() -> (r: NotifyFileChangesResponse)
    ensures
        r.error@.len() == 0,
{
    NotifyFileChangesResponse { error: String::new() }
}

} // verus!
