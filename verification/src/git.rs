//! The clone worker's decisions: which transport URL a project is mirrored
//! from, where the mirror lands under the destination root, and how the
//! outcome of one mirror attempt is classified into a progress event.
//!
//! The mirror operation itself — network transfer, credentials, the object
//! store — is a collaborator; it reports back one [`MirrorOutcome`] as plain
//! values, and everything decided about that outcome is here.

use crate::project::{Project, ProjectAction};
use vstd::prelude::*;

verus! {

/// The transport selector, fixed for the duration of a run.
#[derive(Debug, PartialEq, Eq, Structural, Copy, Clone)]
pub enum CloneMethod {
    Ssh,
    Https,
}

impl CloneMethod {
    /// Parses the command-line spelling of the transport.
    pub fn from_str(s: &str) -> (r: Result<CloneMethod, &'static str>)
        ensures
            s@ == "https"@ ==> (r matches Ok(m) && m == CloneMethod::Https),
            s@ == "ssh"@ ==> (r matches Ok(m) && m == CloneMethod::Ssh),
            s@ != "https"@ && s@ != "ssh"@ ==> (r matches Err(e) && e@ == "no match"@),
    {
        proof {
            reveal_strlit("https");
            reveal_strlit("ssh");
            // The two spellings have different lengths, so no input can
            // satisfy both branch conditions.
            assert("ssh"@.len() == 3);
            assert("https"@.len() == 5);
            assert("ssh"@ != "https"@);
        }
        let owned = String::from_str(s);
        if owned == String::from_str("https") {
            Ok(CloneMethod::Https)
        } else if owned == String::from_str("ssh") {
            Ok(CloneMethod::Ssh)
        } else {
            Err("no match")
        }
    }
}

/// What one repository mirror attempt came to, as plain values: a completed
/// transfer with its observed statistics, a destination that already held a
/// repository (no transfer attempted beyond what the statistics show), or
/// any other failure with its textual cause.
#[derive(Debug)]
pub enum MirrorOutcome {
    Completed { received_bytes: usize, received_objects: usize },
    AlreadyExists { received_bytes: usize, received_objects: usize },
    Failed { err: String },
}

/// The URL a project is mirrored from under the chosen transport.
pub fn select_url(project: &Project, clone_method: CloneMethod) -> (url: &String)
    ensures
        clone_method == CloneMethod::Ssh ==> url@ == project.ssh_url_to_repo@,
        clone_method == CloneMethod::Https ==> url@ == project.http_url_to_repo@,
{
    match clone_method {
        CloneMethod::Ssh => &project.ssh_url_to_repo,
        CloneMethod::Https => &project.http_url_to_repo,
    }
}

/// The local destination of a project: its namespaced path joined under the
/// destination root.
pub fn destination_path(expanded_path: &str, project: &Project) -> (path: String)
    ensures
        path@ == expanded_path@ + "/"@ + project.path_with_namespace@,
{
    let mut path = String::from_str(expanded_path);
    path.append("/");
    path.append(project.path_with_namespace.as_str());
    proof {
        assert(path@ =~= expanded_path@ + "/"@ + project.path_with_namespace@);
    }
    path
}

/// The terminal event a worker emits for `outcome`: a completed mirror and a
/// destination that was already satisfied both resolve to `Cloned` with the
/// observed statistics; everything else resolves to `Failed` with its cause.
pub open spec fn classified(project_path: String, outcome: MirrorOutcome) -> ProjectAction {
    match outcome {
        MirrorOutcome::Completed { received_bytes, received_objects } => (ProjectAction::Cloned {
            project_path,
            received_bytes,
            received_objects,
        }),
        MirrorOutcome::AlreadyExists { received_bytes, received_objects } => (ProjectAction::Cloned {
            project_path,
            received_bytes,
            received_objects,
        }),
        MirrorOutcome::Failed { err } => (ProjectAction::Failed { project_path, err }),
    }
}

/// Classifies one mirror attempt into the worker's terminal event.
pub fn classify_outcome(project_path: String, outcome: MirrorOutcome) -> (action: ProjectAction)
    ensures
        action == classified(project_path, outcome),
{
    match outcome {
        MirrorOutcome::Completed { received_bytes, received_objects } => ProjectAction::Cloned {
            project_path,
            received_bytes,
            received_objects,
        },
        MirrorOutcome::AlreadyExists { received_bytes, received_objects } => ProjectAction::Cloned {
            project_path,
            received_bytes,
            received_objects,
        },
        MirrorOutcome::Failed { err } => ProjectAction::Failed { project_path, err },
    }
}

/// Re-run law: a destination that already holds a repository is reported as
/// satisfied — `Cloned`, with whatever statistics were observed — and never
/// as a failure. Running a finished run again therefore resolves every
/// project as `Cloned`.
pub proof fn lemma_rerun_is_satisfied(
    project_path: String,
    received_bytes: usize,
    received_objects: usize,
)
    ensures
        classified(
            project_path,
            MirrorOutcome::AlreadyExists { received_bytes, received_objects },
        ) == (ProjectAction::Cloned { project_path, received_bytes, received_objects }),
{
}

} // verus!
