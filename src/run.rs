//! The whole run: which categories are built, with which command, and which
//! apps are deployed once a build has completed.
use vstd::prelude::*;
use crate::command::{build_command, command_line, AppKind};
use crate::names::{category_names, get_app_names, str_views};

verus! {

/// Why a run cannot start.
#[derive(Clone, Copy, Debug, PartialEq, Eq, Structural)]
pub enum RunError {
    /// No application was named.
    UsageError,
}

/// The work for one category: run `command` in `working_dir`, then, when a
/// destination is given, deploy each app from `working_dir/build_subdir`.
pub struct CategoryPlan {
    pub kind: AppKind,
    pub command: String,
    pub working_dir: String,
    pub build_subdir: String,
    pub app_names: Vec<String>,
    pub destination: Option<String>,
}

/// A category plan over character sequences.
pub struct CategoryPlanModel {
    pub kind: AppKind,
    pub command: Seq<char>,
    pub working_dir: Seq<char>,
    pub build_subdir: Seq<char>,
    pub app_names: Seq<Seq<char>>,
    pub destination: Option<Seq<char>>,
}

/// The character sequence of an optional string.
pub open spec fn option_view(o: Option<String>) -> Option<Seq<char>> {
    match o {
        Some(s) => Some(s@),
        None => None,
    }
}

/// The character sequences of a sequence of strings.
pub open spec fn string_views(v: Seq<String>) -> Seq<Seq<char>> {
    v.map_values(|s: String| s@)
}

impl View for CategoryPlan {
    type V = CategoryPlanModel;

    open spec fn view(&self) -> CategoryPlanModel {
        CategoryPlanModel {
            kind: self.kind,
            command: self.command@,
            working_dir: self.working_dir@,
            build_subdir: self.build_subdir@,
            app_names: string_views(self.app_names@),
            destination: option_view(self.destination),
        }
    }
}

/// The directory below the frontend root where builds put their output.
pub open spec fn build_output_dir() -> Seq<char> {
    seq!['d', 'i', 's', 't']
}

/// The plan for one non-empty category.
pub open spec fn category_plan(
    prefix: Seq<char>,
    names: Seq<Seq<char>>,
    use_nx: bool,
    skip_cache: bool,
    fe_path: Seq<char>,
    destination: Option<Seq<char>>,
    kind: AppKind,
) -> CategoryPlanModel {
    CategoryPlanModel {
        kind,
        command: command_line(prefix, names, use_nx, skip_cache, kind),
        working_dir: fe_path,
        build_subdir: build_output_dir(),
        app_names: names,
        destination,
    }
}

/// The plans of a run: one for the core apps, then one for the portal apps,
/// each only when its category is not empty; none at all when no app is named.
pub open spec fn run_plans(
    names: Seq<Seq<char>>,
    fe_path: Seq<char>,
    destination: Option<Seq<char>>,
    use_nx: bool,
    skip_cache: bool,
) -> Option<Seq<CategoryPlanModel>> {
    let core = category_names(names, false);
    let portal = category_names(names, true);
    if core.len() == 0 && portal.len() == 0 {
        None
    } else {
        let core_plans = if core.len() == 0 {
            Seq::empty()
        } else {
            seq![category_plan(Seq::empty(), core, use_nx, skip_cache, fe_path, destination, AppKind::Core)]
        };
        let portal_plans = if portal.len() == 0 {
            Seq::empty()
        } else {
            seq![category_plan(Seq::empty(), portal, use_nx, skip_cache, fe_path, destination, AppKind::Portal)]
        };
        Some(core_plans + portal_plans)
    }
}

/// The apps to deploy once a category's build has ended: all of them, in
/// order, when the build completed and a destination was given; none otherwise.
pub open spec fn apps_to_deploy(plan: CategoryPlanModel, build_completed: bool) -> Seq<Seq<char>> {
    if build_completed && plan.destination is Some {
        plan.app_names
    } else {
        Seq::empty()
    }
}

fn copy_option(o: &Option<String>) -> (r: Option<String>)
    ensures
        option_view(r) == option_view(*o),
{
    match o {
        Some(s) => Some(s.clone()),
        None => None,
    }
}

fn owned_names(v: &Vec<&str>) -> (r: Vec<String>)
    ensures
        string_views(r@) == str_views(v@),
{
    let mut r: Vec<String> = Vec::new();
    let mut i: usize = 0;
    while i < v.len()
        invariant
            i <= v@.len(),
            string_views(r@) == str_views(v@).take(i as int),
        decreases v@.len() - i,
    {
        let ghost before = r@;
        let item = String::from_str(v[i]);
        r.push(item);
        proof {
            assert(r@ == before.push(item));
            assert(string_views(before.push(item)) =~= string_views(before).push(item@));
            assert(str_views(v@).take(i as int + 1) =~= str_views(v@).take(i as int).push(v@[i as int]@));
        }
        i = i + 1;
    }
    assert(str_views(v@).take(i as int) =~= str_views(v@));
    r
}

/// The plan for building and deploying `app_names`, all of category `kind`:
/// the build command (after `command_to_run_p`), the frontend root to run it
/// in, and the apps to deploy to `deploy_path` when one is given.
pub fn build_and_deploy(
    app_names: Vec<&str>,
    command_to_run_p: &str,
    is_nx: bool,
    is_skip_nx_cache: bool,
    fe_path: &str,
    deploy_path: Option<String>,
    kind: AppKind,
) -> (r: CategoryPlan)
    requires
        app_names@.len() > 0,
    ensures
        r@ == category_plan(
            command_to_run_p@,
            str_views(app_names@),
            is_nx,
            is_skip_nx_cache,
            fe_path@,
            option_view(deploy_path),
            kind,
        ),
{
    let command = build_command(&app_names, command_to_run_p, is_nx, is_skip_nx_cache, kind);
    let build_subdir = String::from_str("dist");
    proof {
        reveal_strlit("dist");
        assert(build_subdir@ =~= build_output_dir());
    }
    let r = CategoryPlan {
        kind,
        command,
        working_dir: String::from_str(fe_path),
        build_subdir,
        app_names: owned_names(&app_names),
        destination: deploy_path,
    };
    r
}

/// Plans a run over `app_names`: fails with `UsageError` exactly when no app
/// is named; otherwise one plan for the core apps and then one for the portal
/// apps, each only when its category is not empty.
pub fn plan_run(
    app_names: &[String],
    fe_path: &str,
    deploy_path: Option<String>,
    is_nx: bool,
    is_skip_nx_cache: bool,
) -> (r: Result<Vec<CategoryPlan>, RunError>)
    ensures
        match run_plans(
            app_names@.map_values(|s: String| s@),
            fe_path@,
            option_view(deploy_path),
            is_nx,
            is_skip_nx_cache,
        ) {
            None => r == Err::<Vec<CategoryPlan>, RunError>(RunError::UsageError),
            Some(plans) => r is Ok && r->Ok_0@.map_values(|p: CategoryPlan| p@) == plans,
        },
{
    let names = get_app_names(app_names);
    let empty: &str = "";
    proof {
        reveal_strlit("");
        assert(empty@ =~= Seq::<char>::empty());
    }
    if names.core_app_names.len() == 0 && names.portal_app_names.len() == 0 {
        return Err(RunError::UsageError);
    }
    let mut plans: Vec<CategoryPlan> = Vec::new();
    if names.core_app_names.len() > 0 {
        plans.push(build_and_deploy(
            names.core_app_names,
            empty,
            is_nx,
            is_skip_nx_cache,
            fe_path,
            copy_option(&deploy_path),
            AppKind::Core,
        ));
    }
    if names.portal_app_names.len() > 0 {
        plans.push(build_and_deploy(
            names.portal_app_names,
            empty,
            is_nx,
            is_skip_nx_cache,
            fe_path,
            copy_option(&deploy_path),
            AppKind::Portal,
        ));
    }
    assert(plans@.map_values(|p: CategoryPlan| p@) =~= run_plans(
        app_names@.map_values(|s: String| s@),
        fe_path@,
        option_view(deploy_path),
        is_nx,
        is_skip_nx_cache,
    )->Some_0);
    Ok(plans)
}

impl CategoryPlan {
    /// The apps to deploy once the build has ended: all of them, in order,
    /// when `build_completed` and a destination was given; none otherwise.
    pub fn deployments_after_build(&self, build_completed: bool) -> (r: Vec<String>)
        ensures
            string_views(r@) == apps_to_deploy(self@, build_completed),
    {
        let mut r: Vec<String> = Vec::new();
        if build_completed && self.destination.is_some() {
            let mut i: usize = 0;
            while i < self.app_names.len()
                invariant
                    i <= self.app_names@.len(),
                    string_views(r@) == string_views(self.app_names@).take(i as int),
                decreases self.app_names@.len() - i,
            {
                let ghost before = r@;
                let item = self.app_names[i].clone();
                r.push(item);
                proof {
                    assert(r@ == before.push(item));
                    assert(string_views(before.push(item)) =~= string_views(before).push(item@));
                    assert(string_views(self.app_names@).take(i as int + 1) =~= string_views(
                        self.app_names@,
                    ).take(i as int).push(self.app_names@[i as int]@));
                }
                i = i + 1;
            }
            assert(string_views(self.app_names@).take(i as int) =~= string_views(self.app_names@));
        }
        assert(string_views(r@) =~= apps_to_deploy(self@, build_completed));
        r
    }
}

} // verus!
