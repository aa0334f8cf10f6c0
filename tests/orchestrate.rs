use std::collections::BTreeSet;

use angular_deploy::command::AppKind;
use angular_deploy::deploy::{DeployAction, Deployment};
use angular_deploy::names::get_app_names;
use angular_deploy::run::{build_and_deploy, plan_run, RunError};

fn owned(names: &[&str]) -> Vec<String> {
    names.iter().map(|s| s.to_string()).collect()
}

fn deploy_all(fs: &mut BTreeSet<String>, fe: &str, subdir: &str, dst: &str, apps: &[String]) {
    for app in apps {
        let (mut d, mut action) = Deployment::start(fe, subdir, dst, app, '/');
        loop {
            let answer = match &action {
                DeployAction::CheckDir(p) | DeployAction::CheckExists(p) => fs.contains(p),
                DeployAction::Remove(p) => fs.remove(p),
                DeployAction::Move(src, to) => {
                    let name = src.rsplit('/').next().unwrap().to_string();
                    fs.remove(src) && fs.insert(format!("{}/{}", to, name))
                }
                DeployAction::Finish(_) => break,
            };
            let (next, next_action) = d.step(answer);
            d = next;
            action = next_action;
        }
    }
}

#[test]
fn no_names_is_a_usage_error() {
    let names: Vec<String> = Vec::new();
    let r = plan_run(&names, "/fe", Some("/srv/www".to_string()), false, false);
    assert_eq!(r.err(), Some(RunError::UsageError));
}

#[test]
fn core_and_portal_are_planned_separately() {
    let names = owned(&["shop", "shop-portal"]);
    let plans = plan_run(&names, "/fe", Some("/srv/www".to_string()), false, false).ok().unwrap();
    assert_eq!(plans.len(), 2);
    assert_eq!(plans[0].kind, AppKind::Core);
    assert_eq!(plans[0].command, "ng b shop");
    assert_eq!(plans[0].working_dir, "/fe");
    assert_eq!(plans[0].build_subdir, "dist");
    assert_eq!(plans[1].kind, AppKind::Portal);
    assert_eq!(plans[1].command, "ng b shop-portal --configuration=portal");

    let mut fs: BTreeSet<String> =
        ["/fe/dist/shop", "/fe/dist/shop-portal", "/srv/www"].iter().map(|s| s.to_string()).collect();
    for plan in &plans {
        let apps = plan.deployments_after_build(true);
        deploy_all(&mut fs, &plan.working_dir, &plan.build_subdir, "/srv/www", &apps);
    }
    assert!(fs.contains("/srv/www/shop"));
    assert!(fs.contains("/srv/www/shop-portal"));
    assert!(!fs.contains("/fe/dist/shop"));
    assert!(!fs.contains("/fe/dist/shop-portal"));
}

#[test]
fn empty_category_is_skipped() {
    let names = owned(&["a-portal", "b-portal", "a-portal"]);
    let plans = plan_run(&names, "/fe", None, false, true).ok().unwrap();
    assert_eq!(plans.len(), 1);
    assert_eq!(plans[0].kind, AppKind::Portal);
    assert_eq!(
        plans[0].command,
        "nx run-many --target=build --projects=a-portal,b-portal --parallel=2 --skip-nx-cache --configuration=portal"
    );
    assert_eq!(plans[0].app_names, owned(&["a-portal", "b-portal"]));
}

#[test]
fn nothing_is_deployed_without_destination_or_build() {
    let names = owned(&["shop"]);
    let plans = plan_run(&names, "/fe", None, false, false).ok().unwrap();
    assert!(plans[0].deployments_after_build(true).is_empty());
    let plans = plan_run(&names, "/fe", Some("/srv".to_string()), false, false).ok().unwrap();
    assert!(plans[0].deployments_after_build(false).is_empty());
    assert_eq!(plans[0].deployments_after_build(true), owned(&["shop"]));
}

#[test]
fn category_plan_from_classified_names() {
    let input = owned(&["x", "y", "x"]);
    let names = get_app_names(&input);
    let plan = build_and_deploy(names.core_app_names, "", false, false, "/fe", Some("/d".to_string()), AppKind::Core);
    assert_eq!(plan.command, "nx run-many --target=build --projects=x,y --parallel=2");
    assert_eq!(plan.destination, Some("/d".to_string()));
    assert_eq!(plan.app_names, owned(&["x", "y"]));
}
