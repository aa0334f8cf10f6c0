//! Classification of requested application names into core and portal apps.
use vstd::prelude::*;
use itertools::Itertools;

verus! {

/// The suffix that marks a portal application.
pub open spec fn portal_suffix() -> Seq<char> {
    seq!['-', 'p', 'o', 'r', 't', 'a', 'l']
}

/// `suffix` is a suffix of `s`.
pub open spec fn has_suffix(s: Seq<char>, suffix: Seq<char>) -> bool {
    suffix.len() <= s.len() && s.subrange(s.len() - suffix.len(), s.len() as int) == suffix
}

/// A name belongs to the portal category exactly when it ends in `-portal`.
pub open spec fn is_portal_name(name: Seq<char>) -> bool {
    has_suffix(name, portal_suffix())
}

/// The character sequences of a sequence of string slices.
pub open spec fn str_views(v: Seq<&str>) -> Seq<Seq<char>> {
    v.map_values(|s: &str| s@)
}

/// The names of `names` that fall in the portal category (`portal`) or in the
/// core category (`!portal`), in their order, duplicates kept.
pub open spec fn select(names: Seq<Seq<char>>, portal: bool) -> Seq<Seq<char>>
    decreases names.len(),
{
    if names.len() == 0 {
        Seq::empty()
    } else {
        let rest = select(names.drop_last(), portal);
        if is_portal_name(names.last()) == portal {
            rest.push(names.last())
        } else {
            rest
        }
    }
}

/// `s` with every element that occurs earlier in `s` removed.
pub open spec fn dedup(s: Seq<Seq<char>>) -> Seq<Seq<char>>
    decreases s.len(),
{
    if s.len() == 0 {
        Seq::empty()
    } else {
        let rest = dedup(s.drop_last());
        if s.drop_last().contains(s.last()) {
            rest
        } else {
            rest.push(s.last())
        }
    }
}

/// The names of one category, each once, in the order of first occurrence.
pub open spec fn category_names(names: Seq<Seq<char>>, portal: bool) -> Seq<Seq<char>> {
    dedup(select(names, portal))
}

/// The requested applications, split by category.
#[derive(Clone)]
pub struct AppNamesStruct<'a> {
    pub core_app_names: Vec<&'a str>,
    pub portal_app_names: Vec<&'a str>,
}

impl<'a> AppNamesStruct<'a> {
    /// The core names, as character sequences.
    pub open spec fn core_view(&self) -> Seq<Seq<char>> {
        str_views(self.core_app_names@)
    }

    /// The portal names, as character sequences.
    pub open spec fn portal_view(&self) -> Seq<Seq<char>> {
        str_views(self.portal_app_names@)
    }
}

/// Relies on `str::ends_with` with a `&str` pattern: true exactly when
/// `suffix` is a suffix of `s`.
#[verifier::external_body]
fn ends_with(s: &str, suffix: &str) -> (r: bool)
    ensures
        r == has_suffix(s@, suffix@),
{
    s.ends_with(suffix)
}

/// Relies on `itertools::Itertools::unique`: it yields each distinct item once,
/// at its first occurrence, in the order of the input.
#[verifier::external_body]
fn unique_names<'a>(names: Vec<&'a str>) -> (r: Vec<&'a str>)
    ensures
        str_views(r@) == dedup(str_views(names@)),
{
    names.into_iter().unique().collect()
}

/// Splits `app_names` into core and portal names: a name is a portal name
/// exactly when it ends in `-portal`. Each category keeps one copy of each
/// name, in the order in which the names first occur.
pub fn get_app_names(app_names: &[String]) -> (r: AppNamesStruct)
    ensures
        r.core_view() == category_names(app_names@.map_values(|s: String| s@), false),
        r.portal_view() == category_names(app_names@.map_values(|s: String| s@), true),
{
    let ghost all = app_names@.map_values(|s: String| s@);
    let suffix: &str = "-portal";
    proof {
        reveal_strlit("-portal");
    }
    assert(suffix@ == portal_suffix());
    let mut core: Vec<&str> = Vec::new();
    let mut portal: Vec<&str> = Vec::new();
    let mut ii: usize = 0;
    while ii < app_names.len()
        invariant
            0 <= ii <= app_names@.len(),
            all == app_names@.map_values(|s: String| s@),
            suffix@ == portal_suffix(),
            str_views(core@) == select(all.take(ii as int), false),
            str_views(portal@) == select(all.take(ii as int), true),
        decreases app_names@.len() - ii,
    {
        let name: &str = app_names[ii].as_str();
        assert(all.take(ii as int + 1).drop_last() == all.take(ii as int));
        if ends_with(name, suffix) {
            portal.push(name);
        } else {
            core.push(name);
        }
        assert(str_views(core@) == select(all.take(ii as int + 1), false));
        assert(str_views(portal@) == select(all.take(ii as int + 1), true));
        ii = ii + 1;
    }
    assert(all.take(ii as int) == all);
    AppNamesStruct { core_app_names: unique_names(core), portal_app_names: unique_names(portal) }
}

} // verus!
