use gitlab_clone_all::git::{
    classify_outcome, destination_path, select_url, CloneMethod, MirrorOutcome,
};
use gitlab_clone_all::project::{Project, ProjectAction};

fn project() -> Project {
    Project {
        id: 3,
        ssh_url_to_repo: String::from("ssh://A"),
        http_url_to_repo: String::from("http://B"),
        path_with_namespace: String::from("C/D"),
    }
}

#[test]
fn clone_method_from_str() {
    assert_eq!(CloneMethod::from_str("https"), Ok(CloneMethod::Https));
    assert_eq!(CloneMethod::from_str("ssh"), Ok(CloneMethod::Ssh));
    assert_eq!(CloneMethod::from_str("git"), Err("no match"));
    assert_eq!(CloneMethod::from_str(""), Err("no match"));
}

#[test]
fn url_follows_clone_method() {
    let p = project();
    assert_eq!(select_url(&p, CloneMethod::Ssh), "ssh://A");
    assert_eq!(select_url(&p, CloneMethod::Https), "http://B");
}

#[test]
fn destination_under_root() {
    let p = project();
    assert_eq!(destination_path("/srv/mirrors", &p), "/srv/mirrors/C/D");
}

#[test]
fn completed_mirror_is_cloned() {
    let action = classify_outcome(
        String::from("C/D"),
        MirrorOutcome::Completed { received_bytes: 1024, received_objects: 17 },
    );
    assert_eq!(
        action,
        ProjectAction::Cloned {
            project_path: String::from("C/D"),
            received_bytes: 1024,
            received_objects: 17,
        }
    );
}

#[test]
fn pre_existing_destination_is_cloned() {
    let action = classify_outcome(
        String::from("C/D"),
        MirrorOutcome::AlreadyExists { received_bytes: 0, received_objects: 0 },
    );
    assert_eq!(
        action,
        ProjectAction::Cloned {
            project_path: String::from("C/D"),
            received_bytes: 0,
            received_objects: 0,
        }
    );
}

#[test]
fn transport_failure_is_failed() {
    let action = classify_outcome(
        String::from("C/D"),
        MirrorOutcome::Failed { err: String::from("connection reset") },
    );
    assert_eq!(
        action,
        ProjectAction::Failed {
            project_path: String::from("C/D"),
            err: String::from("connection reset"),
        }
    );
}
