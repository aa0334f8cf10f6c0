//! Paths as character sequences joined by an explicit separator.
use vstd::prelude::*;
use crate::text::push_char;

verus! {

/// `a` and `b` joined by one separator.
pub open spec fn join(a: Seq<char>, b: Seq<char>, sep: char) -> Seq<char> {
    a.push(sep) + b
}

/// The part of `path` after its last separator (all of it when it has none).
pub open spec fn last_segment(path: Seq<char>, sep: char) -> Seq<char>
    decreases path.len(),
{
    if path.len() == 0 || path.last() == sep {
        Seq::empty()
    } else {
        last_segment(path.drop_last(), sep).push(path.last())
    }
}

/// The name under which an app is deployed: the given name, or, when that is
/// empty, the last segment of the frontend root.
pub open spec fn target_name(fe_path: Seq<char>, app_name: Seq<char>, sep: char) -> Seq<char> {
    if app_name.len() == 0 {
        last_segment(fe_path, sep)
    } else {
        app_name
    }
}

/// Joins `a` and `b` with `sep`.
pub fn join_path(a: &str, b: &str, sep: char) -> (r: String)
    ensures
        r@ == join(a@, b@, sep),
{
    let mut r = String::from_str(a);
    push_char(&mut r, sep);
    r.append(b);
    r
}

/// The last segment of `path`, split on `sep`.
pub fn last_path_segment(path: &str, sep: char) -> (r: String)
    ensures
        r@ == last_segment(path@, sep),
{
    let n = path.unicode_len();
    let mut start: usize = 0;
    let mut i: usize = 0;
    while i < n
        invariant
            n == path@.len(),
            start <= i <= n,
            last_segment(path@.take(i as int), sep) == path@.subrange(start as int, i as int),
        decreases n - i,
    {
        assert(path@.take(i as int + 1).drop_last() == path@.take(i as int));
        if path.get_char(i) == sep {
            start = i + 1;
        }
        assert(path@.subrange(start as int, i as int + 1) == path@.subrange(start as int, i as int).push(path@[i as int])
            || start == i + 1);
        i = i + 1;
    }
    assert(path@.take(n as int) == path@);
    String::from_str(path.substring_char(start, n))
}

/// The name to deploy `app_name` under, falling back to the last segment of
/// `fe_path` when `app_name` is empty.
pub fn resolve_target_name(fe_path: &str, app_name: &str, sep: char) -> (r: String)
    ensures
        r@ == target_name(fe_path@, app_name@, sep),
{
    if app_name.is_empty() {
        last_path_segment(fe_path, sep)
    } else {
        String::from_str(app_name)
    }
}

} // verus!
