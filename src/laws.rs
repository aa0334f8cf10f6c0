//! Properties that relate several results of the library, proved over the
//! spec functions that its contracts use.
use vstd::prelude::*;
use crate::command::{cache_option, command_line, configuration_option, AppKind};
use crate::deploy::{
    installed_path, source_path, start_model, step_model, apps_dir, ActionModel, DeploymentModel,
    FailureModel,
};
use crate::names::{category_names, dedup, has_suffix, is_portal_name, select};
use crate::paths::{join, last_segment, target_name};

verus! {

proof fn lemma_select_contains(s: Seq<Seq<char>>, portal: bool, n: Seq<char>)
    ensures
        select(s, portal).contains(n) <==> (s.contains(n) && is_portal_name(n) == portal),
    decreases s.len(),
{
    if s.len() > 0 {
        lemma_select_contains(s.drop_last(), portal, n);
        assert(s == s.drop_last().push(s.last()));
        if s.contains(n) && n != s.last() {
            let i = choose|i: int| 0 <= i < s.len() && s[i] == n;
            assert(s.drop_last()[i] == n);
        }
        if s.drop_last().contains(n) {
            let i = choose|i: int| 0 <= i < s.drop_last().len() && s.drop_last()[i] == n;
            assert(s[i] == n);
        }
        let rest = select(s.drop_last(), portal);
        if is_portal_name(s.last()) == portal {
            assert(rest.push(s.last())[rest.len() as int] == s.last());
            if rest.contains(n) {
                let i = choose|i: int| 0 <= i < rest.len() && rest[i] == n;
                assert(rest.push(s.last())[i] == n);
            }
            if rest.push(s.last()).contains(n) && n != s.last() {
                let i = choose|i: int| 0 <= i < rest.len() + 1 && rest.push(s.last())[i] == n;
                assert(rest[i] == n);
            }
        }
        assert(s[s.len() - 1] == s.last());
    }
}

proof fn lemma_dedup_contains(s: Seq<Seq<char>>, n: Seq<char>)
    ensures
        dedup(s).contains(n) <==> s.contains(n),
    decreases s.len(),
{
    if s.len() > 0 {
        lemma_dedup_contains(s.drop_last(), n);
        let rest = dedup(s.drop_last());
        assert(s[s.len() - 1] == s.last());
        if s.contains(n) && n != s.last() {
            let i = choose|i: int| 0 <= i < s.len() && s[i] == n;
            assert(s.drop_last()[i] == n);
        }
        if s.drop_last().contains(n) {
            let i = choose|i: int| 0 <= i < s.drop_last().len() && s.drop_last()[i] == n;
            assert(s[i] == n);
        }
        if !s.drop_last().contains(s.last()) {
            assert(rest.push(s.last())[rest.len() as int] == s.last());
            if rest.contains(n) {
                let i = choose|i: int| 0 <= i < rest.len() && rest[i] == n;
                assert(rest.push(s.last())[i] == n);
            }
            if rest.push(s.last()).contains(n) && n != s.last() {
                let i = choose|i: int| 0 <= i < rest.len() + 1 && rest.push(s.last())[i] == n;
                assert(rest[i] == n);
            }
        }
    }
}

proof fn lemma_dedup_no_duplicates(s: Seq<Seq<char>>)
    ensures
        dedup(s).no_duplicates(),
    decreases s.len(),
{
    if s.len() > 0 {
        lemma_dedup_no_duplicates(s.drop_last());
        let rest = dedup(s.drop_last());
        if !s.drop_last().contains(s.last()) {
            lemma_dedup_contains(s.drop_last(), s.last());
            let r = rest.push(s.last());
            assert forall|i: int, j: int| 0 <= i < r.len() && 0 <= j < r.len() && i != j implies r[i]
                != r[j] by {
                if i < rest.len() && j < rest.len() {
                    assert(r[i] == rest[i] && r[j] == rest[j]);
                } else if i < rest.len() {
                    assert(rest.contains(r[i]));
                } else {
                    assert(rest.contains(r[j]));
                }
            }
        }
    }
}

proof fn lemma_dedup_unique(s: Seq<Seq<char>>)
    requires
        s.no_duplicates(),
    ensures
        dedup(s) == s,
    decreases s.len(),
{
    if s.len() > 0 {
        let d = s.drop_last();
        assert(d.no_duplicates()) by {
            assert forall|i: int, j: int| 0 <= i < d.len() && 0 <= j < d.len() && i != j implies d[i]
                != d[j] by {
                assert(d[i] == s[i] && d[j] == s[j]);
            }
        }
        lemma_dedup_unique(d);
        if d.contains(s.last()) {
            let i = choose|i: int| 0 <= i < d.len() && d[i] == s.last();
            assert(s[i] == s[s.len() - 1]);
        }
        assert(d.push(s.last()) =~= s);
    }
}

proof fn lemma_select_concat(a: Seq<Seq<char>>, b: Seq<Seq<char>>, portal: bool)
    ensures
        select(a + b, portal) == select(a, portal) + select(b, portal),
    decreases b.len(),
{
    if b.len() == 0 {
        assert(a + b =~= a);
        assert(select(a, portal) + select(b, portal) =~= select(a, portal));
    } else {
        lemma_select_concat(a, b.drop_last(), portal);
        assert((a + b).drop_last() =~= a + b.drop_last());
        assert((a + b).last() == b.last());
        if is_portal_name(b.last()) == portal {
            assert(select(a, portal) + select(b.drop_last(), portal).push(b.last()) =~= (select(
                a,
                portal,
            ) + select(b.drop_last(), portal)).push(b.last()));
        }
    }
}

proof fn lemma_select_uniform(s: Seq<Seq<char>>, portal: bool)
    requires
        forall|i: int| 0 <= i < s.len() ==> is_portal_name(#[trigger] s[i]) == portal,
    ensures
        select(s, portal) == s,
        select(s, !portal) == Seq::<Seq<char>>::empty(),
    decreases s.len(),
{
    if s.len() > 0 {
        let d = s.drop_last();
        assert forall|i: int| 0 <= i < d.len() implies is_portal_name(#[trigger] d[i]) == portal by {
            assert(d[i] == s[i]);
        }
        lemma_select_uniform(d, portal);
        assert(is_portal_name(s[s.len() - 1]) == portal);
        assert(d.push(s.last()) =~= s);
    }
}

proof fn lemma_category_uniform(names: Seq<Seq<char>>, portal: bool)
    ensures
        forall|i: int|
            0 <= i < category_names(names, portal).len() ==> is_portal_name(
                #[trigger] category_names(names, portal)[i],
            ) == portal,
{
    let c = category_names(names, portal);
    assert forall|i: int| 0 <= i < c.len() implies is_portal_name(#[trigger] c[i]) == portal by {
        assert(c.contains(c[i]));
        lemma_dedup_contains(select(names, portal), c[i]);
        lemma_select_contains(names, portal, c[i]);
    }
}

/// Every requested name lands in exactly one category, the portal one exactly
/// when it ends in `-portal`; each category holds only requested names of its
/// kind, each once; and classifying the two categories again, core names
/// first, gives back the same two categories.
pub proof fn lemma_classification(names: Seq<Seq<char>>)
    ensures
        forall|n: Seq<char>|
            #![trigger category_names(names, true).contains(n)]
            #![trigger category_names(names, false).contains(n)]
            names.contains(n) ==> {
                &&& category_names(names, true).contains(n) == is_portal_name(n)
                &&& category_names(names, false).contains(n) == !is_portal_name(n)
            },
        forall|n: Seq<char>|
            #![trigger category_names(names, true).contains(n)]
            category_names(names, true).contains(n) ==> names.contains(n) && is_portal_name(n),
        forall|n: Seq<char>|
            #![trigger category_names(names, false).contains(n)]
            category_names(names, false).contains(n) ==> names.contains(n) && !is_portal_name(n),
        category_names(names, true).no_duplicates(),
        category_names(names, false).no_duplicates(),
        category_names(category_names(names, false) + category_names(names, true), false)
            == category_names(names, false),
        category_names(category_names(names, false) + category_names(names, true), true)
            == category_names(names, true),
{
    let core = category_names(names, false);
    let portal = category_names(names, true);
    assert forall|n: Seq<char>| #![trigger portal.contains(n)] #![trigger core.contains(n)] (names.contains(n)
        || portal.contains(n) || core.contains(n)) implies {
        &&& portal.contains(n) <==> (names.contains(n) && is_portal_name(n))
        &&& core.contains(n) <==> (names.contains(n) && !is_portal_name(n))
    } by {
        lemma_dedup_contains(select(names, true), n);
        lemma_dedup_contains(select(names, false), n);
        lemma_select_contains(names, true, n);
        lemma_select_contains(names, false, n);
    }
    lemma_dedup_no_duplicates(select(names, true));
    lemma_dedup_no_duplicates(select(names, false));
    lemma_category_uniform(names, false);
    lemma_category_uniform(names, true);
    lemma_select_uniform(core, false);
    lemma_select_uniform(portal, true);
    lemma_select_concat(core, portal, false);
    lemma_select_concat(core, portal, true);
    assert(core + Seq::<Seq<char>>::empty() =~= core);
    assert(Seq::<Seq<char>>::empty() + portal =~= portal);
    lemma_dedup_unique(core);
    lemma_dedup_unique(portal);
}

/// The same names, flags and category always give the same command line.
pub proof fn lemma_command_deterministic(
    prefix: Seq<char>,
    names: Seq<Seq<char>>,
    use_nx: bool,
    skip_cache: bool,
    kind: AppKind,
    first: Seq<char>,
    second: Seq<char>,
)
    requires
        first == command_line(prefix, names, use_nx, skip_cache, kind),
        second == command_line(prefix, names, use_nx, skip_cache, kind),
    ensures
        first == second,
{
}

/// A portal command line ends with the portal configuration selector, and,
/// when the cache is skipped, the cache option comes right before it.
pub proof fn lemma_portal_selector_last(
    prefix: Seq<char>,
    names: Seq<Seq<char>>,
    use_nx: bool,
    skip_cache: bool,
)
    ensures
        has_suffix(
            command_line(prefix, names, use_nx, skip_cache, AppKind::Portal),
            cache_option(skip_cache) + configuration_option(AppKind::Portal),
        ),
        has_suffix(
            command_line(prefix, names, use_nx, skip_cache, AppKind::Portal),
            configuration_option(AppKind::Portal),
        ),
{
    let c = command_line(prefix, names, use_nx, skip_cache, AppKind::Portal);
    let head = prefix + crate::command::base_command(names, use_nx);
    let tail = cache_option(skip_cache) + configuration_option(AppKind::Portal);
    assert(c =~= head + tail);
    assert((head + tail).subrange(head.len() as int, (head + tail).len() as int) =~= tail);
    let sel = configuration_option(AppKind::Portal);
    assert((head + tail).subrange((head + tail).len() - sel.len(), (head + tail).len() as int)
        =~= sel);
}

/// The answer a filesystem holding the directories `fs` gives to `a`: whether
/// a probed path is there; removals and moves succeed.
pub open spec fn fs_answer(fs: Set<Seq<char>>, a: ActionModel) -> bool {
    match a {
        ActionModel::CheckDir(p) => fs.contains(p),
        ActionModel::CheckExists(p) => fs.contains(p),
        _ => true,
    }
}

/// The directories after `a`: a removal takes the path away, a move takes the
/// source away and puts its last segment under the destination.
pub open spec fn fs_apply(fs: Set<Seq<char>>, a: ActionModel, sep: char) -> Set<Seq<char>> {
    match a {
        ActionModel::Remove(p) => fs.remove(p),
        ActionModel::Move(src, dst) => fs.remove(src).insert(join(dst, last_segment(src, sep), sep)),
        _ => fs,
    }
}

/// Runs a deployment from state `m` and pending action `a` against `fs` for at
/// most `fuel` actions: the actions asked for, the last one included, and the
/// directories at the end.
pub open spec fn fs_run(m: DeploymentModel, a: ActionModel, fs: Set<Seq<char>>, fuel: nat) -> (
    Seq<ActionModel>,
    Set<Seq<char>>,
)
    decreases fuel,
{
    if fuel == 0 || a is Done || a is Failed {
        (seq![a], fs)
    } else {
        let next = step_model(m, fs_answer(fs, a));
        let rest = fs_run(next.0, next.1, fs_apply(fs, a, m.separator), (fuel - 1) as nat);
        (seq![a] + rest.0, rest.1)
    }
}

proof fn lemma_last_segment_has_no_separator(path: Seq<char>, sep: char)
    ensures
        !last_segment(path, sep).contains(sep),
    decreases path.len(),
{
    if path.len() > 0 && path.last() != sep {
        lemma_last_segment_has_no_separator(path.drop_last(), sep);
        let rest = last_segment(path.drop_last(), sep);
        if rest.push(path.last()).contains(sep) {
            let i = choose|i: int| 0 <= i < rest.len() + 1 && rest.push(path.last())[i] == sep;
            assert(rest[i] == sep);
        }
    }
}

proof fn lemma_last_segment_of_join(base: Seq<char>, name: Seq<char>, sep: char)
    requires
        !name.contains(sep),
    ensures
        last_segment(join(base, name, sep), sep) == name,
    decreases name.len(),
{
    let j = join(base, name, sep);
    if name.len() == 0 {
        assert(j =~= base.push(sep));
    } else {
        assert(name[name.len() - 1] == name.last());
        let shorter = name.drop_last();
        if shorter.contains(sep) {
            let i = choose|i: int| 0 <= i < shorter.len() && shorter[i] == sep;
            assert(name[i] == sep);
        }
        lemma_last_segment_of_join(base, shorter, sep);
        assert(j.drop_last() =~= join(base, shorter, sep));
        assert(j.last() == name.last());
        assert(shorter.push(name.last()) =~= name);
    }
}

/// Deploying over an earlier deployment: the earlier one is removed first, the
/// build output is then moved, and afterwards the app is in place under the
/// destination and gone from where it was built.
pub proof fn lemma_deploy_replaces_existing(
    fe_path: Seq<char>,
    build_subdir: Seq<char>,
    destination_root: Seq<char>,
    app_name: Seq<char>,
    sep: char,
    fs: Set<Seq<char>>,
)
    requires
        !app_name.contains(sep),
        ({
            let m = start_model(fe_path, build_subdir, destination_root, app_name, sep).0;
            let src = source_path(m, fs.contains(apps_dir(m)));
            &&& fs.contains(installed_path(m))
            &&& fs.contains(src)
            &&& src != installed_path(m)
        }),
    ensures
        ({
            let (m, first) = start_model(fe_path, build_subdir, destination_root, app_name, sep);
            let src = source_path(m, fs.contains(apps_dir(m)));
            let dst = installed_path(m);
            let (actions, after) = fs_run(m, first, fs, 5);
            &&& actions == seq![
                ActionModel::CheckDir(apps_dir(m)),
                ActionModel::CheckExists(dst),
                ActionModel::Remove(dst),
                ActionModel::CheckExists(src),
                ActionModel::Move(src, destination_root),
                ActionModel::Done,
            ]
            &&& after.contains(dst)
            &&& !after.contains(src)
        }),
{
    let (m, first) = start_model(fe_path, build_subdir, destination_root, app_name, sep);
    let src = source_path(m, fs.contains(apps_dir(m)));
    let target = target_name(fe_path, app_name, sep);
    if app_name.len() == 0 {
        lemma_last_segment_has_no_separator(fe_path, sep);
    }
    if fs.contains(apps_dir(m)) {
        lemma_last_segment_of_join(apps_dir(m), target, sep);
    } else {
        lemma_last_segment_of_join(m.build_dir, target, sep);
    }
    reveal_with_fuel(fs_run, 6);
    let (actions, after) = fs_run(m, first, fs, 5);
    assert(actions =~= seq![
        ActionModel::CheckDir(apps_dir(m)),
        ActionModel::CheckExists(installed_path(m)),
        ActionModel::Remove(installed_path(m)),
        ActionModel::CheckExists(src),
        ActionModel::Move(src, destination_root),
        ActionModel::Done,
    ]);
}

/// Deploying when the build output is absent: the deployment fails with
/// `SourceNotFound` naming it, and the earlier deployment, if there was one,
/// has been removed all the same, so the destination ends without the app.
pub proof fn lemma_deploy_without_build_output(
    fe_path: Seq<char>,
    build_subdir: Seq<char>,
    destination_root: Seq<char>,
    app_name: Seq<char>,
    sep: char,
    fs: Set<Seq<char>>,
)
    requires
        ({
            let m = start_model(fe_path, build_subdir, destination_root, app_name, sep).0;
            !fs.contains(source_path(m, fs.contains(apps_dir(m))))
        }),
    ensures
        ({
            let (m, first) = start_model(fe_path, build_subdir, destination_root, app_name, sep);
            let src = source_path(m, fs.contains(apps_dir(m)));
            let (actions, after) = fs_run(m, first, fs, 5);
            &&& actions.last() == ActionModel::Failed(FailureModel::SourceNotFound(src))
            &&& after == fs.remove(installed_path(m))
            &&& !after.contains(installed_path(m))
        }),
{
    let (m, first) = start_model(fe_path, build_subdir, destination_root, app_name, sep);
    reveal_with_fuel(fs_run, 6);
    if !fs.contains(installed_path(m)) {
        assert(fs.remove(installed_path(m)) =~= fs);
    }
}

} // verus!
