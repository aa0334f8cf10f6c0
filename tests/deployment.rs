use std::collections::BTreeSet;

use angular_deploy::deploy::{DeployAction, DeployError, DeployPhase, Deployment};
use angular_deploy::paths::{join_path, last_path_segment, resolve_target_name};

/// Drives a deployment against a set of directory paths; `fail_remove` and
/// `fail_move` make those actions report failure.
fn drive(
    fs: &mut BTreeSet<String>,
    start: (Deployment, DeployAction),
    fail_remove: bool,
    fail_move: bool,
) -> (Vec<DeployAction>, Result<(), DeployError>) {
    let (mut d, mut action) = start;
    let mut seen = Vec::new();
    loop {
        let answer = match &action {
            DeployAction::CheckDir(p) | DeployAction::CheckExists(p) => fs.contains(p),
            DeployAction::Remove(p) => {
                if fail_remove {
                    false
                } else {
                    fs.retain(|q| q != p && !q.starts_with(&format!("{}/", p)));
                    true
                }
            }
            DeployAction::Move(src, dst) => {
                if fail_move {
                    false
                } else {
                    let name = src.rsplit('/').next().unwrap().to_string();
                    let moved: Vec<String> = fs
                        .iter()
                        .filter(|q| *q == src || q.starts_with(&format!("{}/", src)))
                        .cloned()
                        .collect();
                    for q in moved {
                        fs.remove(&q);
                        fs.insert(format!("{}/{}{}", dst, name, &q[src.len()..]));
                    }
                    true
                }
            }
            DeployAction::Finish(r) => return (seen, r.clone()),
        };
        let (next, next_action) = d.step(answer);
        seen.push(action);
        d = next;
        action = next_action;
    }
}

fn dirs(paths: &[&str]) -> BTreeSet<String> {
    paths.iter().map(|s| s.to_string()).collect()
}

#[test]
fn replaces_existing_deployment() {
    let mut fs = dirs(&["/fe/dist", "/fe/dist/app", "/fe/dist/app/main.js", "/dst", "/dst/app", "/dst/app/old.js"]);
    let start = Deployment::start("/fe", "dist", "/dst", "app", '/');
    let (actions, r) = drive(&mut fs, start, false, false);
    assert_eq!(r, Ok(()));
    assert_eq!(
        actions,
        vec![
            DeployAction::CheckDir("/fe/dist/apps".to_string()),
            DeployAction::CheckExists("/dst/app".to_string()),
            DeployAction::Remove("/dst/app".to_string()),
            DeployAction::CheckExists("/fe/dist/app".to_string()),
            DeployAction::Move("/fe/dist/app".to_string(), "/dst".to_string()),
        ]
    );
    assert!(fs.contains("/dst/app"));
    assert!(fs.contains("/dst/app/main.js"));
    assert!(!fs.contains("/dst/app/old.js"));
    assert!(!fs.contains("/fe/dist/app"));
}

#[test]
fn multi_project_layout_is_used_when_present() {
    let mut fs = dirs(&["/fe/dist", "/fe/dist/apps", "/fe/dist/apps/shop", "/dst"]);
    let start = Deployment::start("/fe", "dist", "/dst", "shop", '/');
    let (actions, r) = drive(&mut fs, start, false, false);
    assert_eq!(r, Ok(()));
    assert_eq!(actions[1], DeployAction::CheckExists("/dst/shop".to_string()));
    assert_eq!(actions[2], DeployAction::CheckExists("/fe/dist/apps/shop".to_string()));
    assert!(fs.contains("/dst/shop"));
    assert!(!fs.contains("/fe/dist/apps/shop"));
}

#[test]
fn missing_build_output_removes_destination_and_fails() {
    let mut fs = dirs(&["/fe/dist", "/dst", "/dst/app"]);
    let start = Deployment::start("/fe", "dist", "/dst", "app", '/');
    let (_, r) = drive(&mut fs, start, false, false);
    assert_eq!(r, Err(DeployError::SourceNotFound("/fe/dist/app".to_string())));
    assert!(!fs.contains("/dst/app"));
    assert!(fs.contains("/dst"));
}

#[test]
fn missing_build_output_without_earlier_deployment() {
    let mut fs = dirs(&["/fe/dist", "/dst"]);
    let start = Deployment::start("/fe", "dist", "/dst", "app", '/');
    let (actions, r) = drive(&mut fs, start, false, false);
    assert_eq!(r, Err(DeployError::SourceNotFound("/fe/dist/app".to_string())));
    assert_eq!(actions.len(), 3);
    assert_eq!(fs, dirs(&["/fe/dist", "/dst"]));
}

#[test]
fn failed_removal_stops_deployment() {
    let mut fs = dirs(&["/fe/dist/app", "/dst/app"]);
    let start = Deployment::start("/fe", "dist", "/dst", "app", '/');
    let (_, r) = drive(&mut fs, start, true, false);
    assert_eq!(r, Err(DeployError::DeleteFailed("/dst/app".to_string())));
    assert!(fs.contains("/fe/dist/app"));
}

#[test]
fn failed_move_is_reported() {
    let mut fs = dirs(&["/fe/dist/app"]);
    let start = Deployment::start("/fe", "dist", "/dst", "app", '/');
    let (_, r) = drive(&mut fs, start, false, true);
    assert_eq!(r, Err(DeployError::MoveFailed("/fe/dist/app".to_string())));
}

#[test]
fn empty_app_name_falls_back_to_frontend_folder() {
    let (d, action) = Deployment::start("/home/u/web", "dist", "/srv", "", '/');
    assert_eq!(d.target, "web");
    assert_eq!(d.phase, DeployPhase::Layout);
    assert_eq!(action, DeployAction::CheckDir("/home/u/web/dist/apps".to_string()));
    let (d, action) = d.step(false);
    assert_eq!(d.source, "/home/u/web/dist/web");
    assert_eq!(action, DeployAction::CheckExists("/srv/web".to_string()));
}

#[test]
fn windows_separator_is_honoured() {
    let (d, action) = Deployment::start("C:\\work\\fe", "dist", "D:\\www", "", '\\');
    assert_eq!(d.target, "fe");
    assert_eq!(action, DeployAction::CheckDir("C:\\work\\fe\\dist\\apps".to_string()));
}

#[test]
fn last_segment_cases() {
    assert_eq!(last_path_segment("/a/b/frontend", '/'), "frontend");
    assert_eq!(last_path_segment("frontend", '/'), "frontend");
    assert_eq!(last_path_segment("/a/b/", '/'), "");
    assert_eq!(last_path_segment("", '/'), "");
    assert_eq!(last_path_segment("a\\b", '/'), "a\\b");
}

#[test]
fn target_name_prefers_given_name() {
    assert_eq!(resolve_target_name("/a/web", "shop", '/'), "shop");
    assert_eq!(resolve_target_name("/a/web", "", '/'), "web");
}

#[test]
fn join_inserts_one_separator() {
    assert_eq!(join_path("/srv/www", "shop", '/'), "/srv/www/shop");
    assert_eq!(join_path("a", "b", '\\'), "a\\b");
}
