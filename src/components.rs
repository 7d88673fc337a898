//! The component of a path at a zero-based position.
use vstd::prelude::*;

verus! {

/// The components of a path, in order, as the platform's path rules split it:
/// on Unix a leading separator is a component of its own (the root), repeated
/// separators and `.` entries past the start are dropped.
pub uninterp spec fn components_of(path: Seq<char>) -> Seq<Seq<char>>;

/// Relies on `std::path::Path::iter`: the components of `path`, in order,
/// each as text (a component of a `&str` path is valid UTF-8, so the lossy
/// conversion keeps it as it is).
#[verifier::external_body]
fn path_components(path: &str) -> (r: Vec<String>)
    ensures
        r@.map_values(|c: String| c@) == components_of(path@),
{
    std::path::Path::new(path).iter().map(|c| c.to_string_lossy().into_owned()).collect()
}

/// The element at `idx` of `comps`, or nothing where `idx` is negative or
/// past the end.
pub open spec fn component_at_spec(comps: Seq<Seq<char>>, idx: int) -> Option<Seq<char>> {
    if 0 <= idx < comps.len() {
        Some(comps[idx])
    } else {
        None
    }
}

/// The component of `path` at zero-based position `idx`.
pub open spec fn path_at_spec(path: Seq<char>, idx: int) -> Option<Seq<char>> {
    component_at_spec(components_of(path), idx)
}

/// Picks the element at `idx` out of a list of components; a negative index or
/// one past the end gives `None`, never an error.
pub fn component_at(components: &Vec<String>, idx: i64) -> (r: Option<String>)
    ensures
        r.deep_view() == component_at_spec(components@.map_values(|c: String| c@), idx as int),
{
    if idx < 0 {
        return None;
    }
    let n = components.len();
    if idx as u64 >= n as u64 {
        return None;
    }
    let i = idx as usize;
    let c = components[i].clone();
    Some(c)
}

/// The component of `path` at zero-based position `idx`, or `None` where there
/// is none there.
pub fn path_at(path: &str, idx: i64) -> (r: Option<String>)
    ensures
        r.deep_view() == path_at_spec(path@, idx as int),
{
    let comps = path_components(path);
    component_at(&comps, idx)
}

/// `path_at` depends on its arguments alone: any two results that its contract
/// admits for the same path and index hold the same text.
pub proof fn lemma_path_at_repeatable(
    path: Seq<char>,
    idx: i64,
    r1: Option<String>,
    r2: Option<String>,
)
    requires
        r1.deep_view() == path_at_spec(path, idx as int),
        r2.deep_view() == path_at_spec(path, idx as int),
    ensures
        r1.deep_view() == r2.deep_view(),
        r1.is_some() == r2.is_some(),
{
}

/// A negative index never names a component.
pub proof fn lemma_negative_index_absent(path: Seq<char>, idx: i64)
    requires
        idx < 0,
    ensures
        path_at_spec(path, idx as int).is_none(),
{
}

} // verus!
