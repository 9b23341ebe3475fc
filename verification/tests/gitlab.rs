use gitlab_clone_all::gitlab::{decimal_string, listing_url, Discovery};
use gitlab_clone_all::project::{Project, ProjectAction};

fn project(id: u64) -> Project {
    Project {
        id,
        ssh_url_to_repo: String::from("ssh://A"),
        http_url_to_repo: String::from("http://B"),
        path_with_namespace: String::from("C/D"),
    }
}

/// Drives discovery over the pages a server would serve, collecting the
/// forwarded projects and announced events the way the two pipeline
/// channels would. `serve` maps the current cursor to the page the server
/// returns for it.
fn run_discovery(
    serve: impl Fn(Option<u64>) -> Vec<Project>,
) -> (Vec<Project>, Vec<ProjectAction>) {
    let mut discovery = Discovery::new();
    let mut tx_projects: Vec<Project> = Vec::new();
    let mut tx_projects_actions: Vec<ProjectAction> = Vec::new();
    loop {
        let page = serve(discovery.project_id_after);
        if !discovery.step(&page) {
            break;
        }
        for project in page {
            tx_projects_actions.push(ProjectAction::ToClone);
            tx_projects.push(project);
        }
    }
    (tx_projects, tx_projects_actions)
}

#[test]
fn one_page() {
    let res = [project(3)];

    // The server serves the same single page for every cursor; the repeated
    // tail identifier is what ends the run.
    let (projects, actions) = run_discovery(|_| res.to_vec());

    assert_eq!(projects.len(), 1);
    assert_eq!(projects[0], res[0]);
    assert_eq!(actions.len(), 1);
    assert_eq!(actions[0], ProjectAction::ToClone);
}

#[test]
fn two_pages() {
    let first_page = [project(1)];
    let second_page = [project(2)];

    let (projects, actions) = run_discovery(|id_after| match id_after {
        None | Some(0) => first_page.to_vec(),
        Some(1) | Some(2) => second_page.to_vec(),
        Some(id) => panic!("Unkown id_after={}", id),
    });

    assert_eq!(projects.len(), 2);
    assert_eq!(projects[0], first_page[0]);
    assert_eq!(projects[1], second_page[0]);
    assert_eq!(actions.len(), 2);
    assert_eq!(actions[0], ProjectAction::ToClone);
    assert_eq!(actions[1], ProjectAction::ToClone);
}

#[test]
fn empty_first_page_announces_nothing() {
    let (projects, actions) = run_discovery(|_| Vec::new());
    assert!(projects.is_empty());
    assert!(actions.is_empty());
}

#[test]
fn step_stops_on_empty_page() {
    let mut discovery = Discovery::new();
    assert!(discovery.step(&vec![project(1)]));
    assert_eq!(discovery.project_id_after, Some(1));
    assert!(!discovery.done);
    assert!(!discovery.step(&Vec::new()));
    assert!(discovery.done);
    assert_eq!(discovery.project_id_after, Some(1));
}

#[test]
fn step_stops_on_repeated_tail_identifier() {
    let mut discovery = Discovery::new();
    assert!(discovery.step(&vec![project(7), project(9)]));
    assert_eq!(discovery.project_id_after, Some(9));
    assert!(!discovery.step(&vec![project(7), project(9)]));
    assert!(discovery.done);
}

#[test]
fn listing_url_first_page() {
    let url = listing_url("http://localhost:8123", None);
    assert_eq!(
        url,
        "http://localhost:8123/api/v4/projects?statistics=false&top_level=&with_custom_attributes=false&all_available=true&top_level&order_by=id&sort=asc&pagination=keyset&per_page=100&id_after=0"
    );
}

#[test]
fn listing_url_after_cursor() {
    let url = listing_url("https://gitlab.com", Some(12345));
    assert_eq!(
        url,
        "https://gitlab.com/api/v4/projects?statistics=false&top_level=&with_custom_attributes=false&all_available=true&top_level&order_by=id&sort=asc&pagination=keyset&per_page=100&id_after=12345"
    );
}

#[test]
fn decimal_rendering() {
    assert_eq!(decimal_string(0), "0");
    assert_eq!(decimal_string(7), "7");
    assert_eq!(decimal_string(10), "10");
    assert_eq!(decimal_string(120), "120");
    assert_eq!(decimal_string(18446744073709551615), "18446744073709551615");
}
