//! The build command for one category of applications.
use vstd::prelude::*;
use crate::names::str_views;
use crate::text::{decimal, push_char, push_decimal};

verus! {

/// The category of an application: portal apps are built with the portal
/// configuration, core apps without a configuration selector.
#[derive(Clone, Copy, Debug, PartialEq, Eq, Structural)]
pub enum AppKind {
    Core,
    Portal,
}

/// The names joined with `,`, in their order.
pub open spec fn comma_joined(names: Seq<Seq<char>>) -> Seq<char>
    decreases names.len(),
{
    if names.len() == 0 {
        Seq::empty()
    } else if names.len() == 1 {
        names[0]
    } else {
        comma_joined(names.drop_last()).push(',') + names.last()
    }
}

/// The build invocation before any option: the multi-project tool's
/// `run-many` for several apps, its single build when forced by `use_nx`,
/// and the standard tool's build otherwise.
pub open spec fn base_command(names: Seq<Seq<char>>, use_nx: bool) -> Seq<char> {
    if names.len() > 1 {
        "nx run-many --target=build --projects="@ + comma_joined(names) + " --parallel="@
            + decimal(names.len())
    } else if use_nx {
        "nx b "@ + names[0]
    } else {
        "ng b "@ + names[0]
    }
}

/// The option that bypasses the build cache, when asked for.
pub open spec fn cache_option(skip_cache: bool) -> Seq<char> {
    if skip_cache {
        " --skip-nx-cache"@
    } else {
        Seq::empty()
    }
}

/// The configuration selector of a category: portal apps get the portal
/// configuration, core apps nothing.
pub open spec fn configuration_option(kind: AppKind) -> Seq<char> {
    match kind {
        AppKind::Portal => " --configuration=portal"@,
        AppKind::Core => Seq::empty(),
    }
}

/// The full command line: `prefix`, the base invocation, the cache option and
/// the configuration selector, in that order.
pub open spec fn command_line(
    prefix: Seq<char>,
    names: Seq<Seq<char>>,
    use_nx: bool,
    skip_cache: bool,
    kind: AppKind,
) -> Seq<char> {
    prefix + base_command(names, use_nx) + cache_option(skip_cache) + configuration_option(kind)
}

fn push_joined(s: &mut String, names: &Vec<&str>)
    requires
        names@.len() > 0,
    ensures
        final(s)@ == old(s)@ + comma_joined(str_views(names@)),
{
    let ghost start = s@;
    let ghost all = str_views(names@);
    s.append(names[0]);
    assert(all.take(1) == seq![all[0]]);
    let mut i: usize = 1;
    while i < names.len()
        invariant
            1 <= i <= names@.len(),
            all == str_views(names@),
            s@ == start + comma_joined(all.take(i as int)),
        decreases names@.len() - i,
    {
        push_char(s, ',');
        s.append(names[i]);
        assert(all.take(i as int + 1).drop_last() == all.take(i as int));
        proof {
            lemma_joined_step(all, i as int);
        }
        i = i + 1;
    }
    assert(all.take(i as int) == all);
}

proof fn lemma_joined_step(all: Seq<Seq<char>>, i: int)
    requires
        1 <= i < all.len(),
    ensures
        comma_joined(all.take(i + 1)) == comma_joined(all.take(i)).push(',') + all[i],
{
    assert(all.take(i + 1).drop_last() == all.take(i));
    assert(all.take(i + 1).last() == all[i]);
}

/// The command that builds `app_names`, which all belong to category `kind`:
/// `command_to_run_p` followed by the base invocation, the cache option when
/// `is_skip_nx_cache`, and the portal configuration for portal apps.
pub fn build_command(
    app_names: &Vec<&str>,
    command_to_run_p: &str,
    is_nx: bool,
    is_skip_nx_cache: bool,
    kind: AppKind,
) -> (r: String)
    requires
        app_names@.len() > 0,
    ensures
        r@ == command_line(command_to_run_p@, str_views(app_names@), is_nx, is_skip_nx_cache, kind),
{
    let mut command_to_run = String::from_str(command_to_run_p);
    if app_names.len() > 1 {
        command_to_run.append("nx run-many --target=build --projects=");
        push_joined(&mut command_to_run, app_names);
        command_to_run.append(" --parallel=");
        push_decimal(&mut command_to_run, app_names.len());
    } else if is_nx {
        command_to_run.append("nx b ");
        command_to_run.append(app_names[0]);
    } else {
        command_to_run.append("ng b ");
        command_to_run.append(app_names[0]);
    }
    if is_skip_nx_cache {
        command_to_run.append(" --skip-nx-cache");
    }
    if kind == AppKind::Portal {
        command_to_run.append(" --configuration=portal");
    }
    proof {
        let names = str_views(app_names@);
        assert(names.len() == app_names@.len());
        if app_names@.len() <= 1 {
            assert(names[0] == app_names@[0]@);
        }
    }
    command_to_run
}

/// The shell program that interprets a command line on this platform kind.
pub open spec fn shell_program(windows: bool) -> Seq<char> {
    if windows {
        "cmd"@
    } else {
        "sh"@
    }
}

/// The switch that hands the shell a command line to run.
pub open spec fn shell_switch(windows: bool) -> Seq<char> {
    if windows {
        "/C"@
    } else {
        "-c"@
    }
}

/// The program and arguments that run `command` through the platform shell:
/// `cmd /C command` on Windows, `sh -c command` elsewhere.
pub fn shell_invocation(windows: bool, command: &str) -> (r: (String, Vec<String>))
    ensures
        r.0@ == shell_program(windows),
        r.1@.len() == 2,
        r.1@[0]@ == shell_switch(windows),
        r.1@[1]@ == command@,
{
    let (program, switch) = if windows {
        (String::from_str("cmd"), String::from_str("/C"))
    } else {
        (String::from_str("sh"), String::from_str("-c"))
    };
    let mut args: Vec<String> = Vec::new();
    args.push(switch);
    args.push(String::from_str(command));
    (program, args)
}

} // verus!
