//! The shared data model of the pipeline: one discoverable repository and the
//! progress events that flow from discovery and the clone workers to the
//! aggregator.

use vstd::prelude::*;

verus! {

/// One discoverable repository, as the listing endpoint reports it.
///
/// `id` is the keyset pagination cursor: globally increasing and unique.
/// `path_with_namespace` (`group/subgroup/repo`) locates the local
/// destination under the chosen root. The record is created by discovery and
/// never mutated afterwards.
#[derive(Debug, Clone)]
pub struct Project {
    pub id: u64,
    pub ssh_url_to_repo: String,
    pub http_url_to_repo: String,
    pub path_with_namespace: String,
}

impl PartialEq for Project {
    fn eq(&self, other: &Project) -> (r: bool) {
        self.id == other.id && self.ssh_url_to_repo == other.ssh_url_to_repo
            && self.http_url_to_repo == other.http_url_to_repo
            && self.path_with_namespace == other.path_with_namespace
    }
}

impl vstd::std_specs::cmp::PartialEqSpecImpl for Project {
    open spec fn obeys_eq_spec() -> bool {
        true
    }

    open spec fn eq_spec(&self, other: &Project) -> bool {
        &&& self.id == other.id
        &&& self.ssh_url_to_repo@ == other.ssh_url_to_repo@
        &&& self.http_url_to_repo@ == other.http_url_to_repo@
        &&& self.path_with_namespace@ == other.path_with_namespace@
    }
}

/// A progress event. `ToClone` announces one additional unit of work;
/// `Cloned` and `Failed` resolve exactly one previously announced unit.
/// Events are produced by discovery and the clone workers and consumed, never
/// retained, by the aggregator.
#[derive(Debug, Clone)]
pub enum ProjectAction {
    ToClone,
    Cloned { project_path: String, received_bytes: usize, received_objects: usize },
    Failed { project_path: String, err: String },
}

impl PartialEq for ProjectAction {
    fn eq(&self, other: &ProjectAction) -> (r: bool) {
        match (self, other) {
            (ProjectAction::ToClone, ProjectAction::ToClone) => true,
            (
                ProjectAction::Cloned {
                    project_path: lp,
                    received_bytes: lb,
                    received_objects: lo,
                },
                ProjectAction::Cloned {
                    project_path: rp,
                    received_bytes: rb,
                    received_objects: ro,
                },
            ) => *lp == *rp && *lb == *rb && *lo == *ro,
            (
                ProjectAction::Failed { project_path: lp, err: le },
                ProjectAction::Failed { project_path: rp, err: re },
            ) => *lp == *rp && *le == *re,
            _ => false,
        }
    }
}

impl vstd::std_specs::cmp::PartialEqSpecImpl for ProjectAction {
    open spec fn obeys_eq_spec() -> bool {
        true
    }

    open spec fn eq_spec(&self, other: &ProjectAction) -> bool {
        match (self, other) {
            (ProjectAction::ToClone, ProjectAction::ToClone) => true,
            (
                ProjectAction::Cloned {
                    project_path: lp,
                    received_bytes: lb,
                    received_objects: lo,
                },
                ProjectAction::Cloned {
                    project_path: rp,
                    received_bytes: rb,
                    received_objects: ro,
                },
            ) => lp@ == rp@ && lb == rb && lo == ro,
            (
                ProjectAction::Failed { project_path: lp, err: le },
                ProjectAction::Failed { project_path: rp, err: re },
            ) => lp@ == rp@ && le@ == re@,
            _ => false,
        }
    }
}

} // verus!
