use vstd::prelude::*;

verus! {

/// The set of relation names in a `Link` header value, or `None` where the
/// value does not parse (or an entry lacks its `rel`).
pub uninterp spec fn link_rels(header: Seq<char>) -> Option<Set<Seq<char>>>;

/// The relation names listed in `v`, as a set.
pub open spec fn names_of(v: Seq<String>) -> Set<Seq<char>> {
    v.map_values(|s: String| s@).to_set()
}

/// The relation that announces a following page.
pub open spec fn next_rel() -> Seq<char> {
    seq!['n', 'e', 'x', 't']
}

/// Why the continuation of a page could not be decided.
#[derive(Clone, Copy, Debug, PartialEq, Eq, Structural)]
pub enum LinkError {
    /// The response carries no `Link` header.
    MissingHeader,
    /// The `Link` header does not parse.
    Malformed,
}

/// Relies on `parse_link_header::parse_with_rel`: the keys of the map it
/// returns are the header's relation names; it fails on a malformed value.
#[verifier::external_body]
fn link_relations(header: &str) -> (r: Option<Vec<String>>)
    ensures
        match r {
            Some(v) => link_rels(header@) == Some(names_of(v@)),
            None => link_rels(header@) is None,
        },
{
    parse_link_header::parse_with_rel(header).ok().map(|m| m.into_keys().collect())
}

/// Whether `rels` holds the relation `next`.
pub fn rels_have_next(rels: &Vec<String>) -> (r: bool)
    ensures
        r == names_of(rels@).contains(next_rel()),
{
    let next = "next".to_owned();
    proof {
        reveal_strlit("next");
    }
    assert(next@ == next_rel());
    let mut i: usize = 0;
    while i < rels.len()
        invariant
            i <= rels.len(),
            next@ == next_rel(),
            forall|k: int| 0 <= k < i ==> rels@[k]@ != next_rel(),
        decreases rels.len() - i,
    {
        if rels[i] == next {
            assert(rels@.map_values(|s: String| s@)[i as int] == next_rel());
            return true;
        }
        i = i + 1;
    }
    proof {
        let names = rels@.map_values(|s: String| s@);
        if names.to_set().contains(next_rel()) {
            let k = names.index_of(next_rel());
            assert(rels@[k]@ == next_rel());
        }
    }
    false
}

/// Whether a page is followed by another, from its `Link` header value
/// (`None` where the header is absent).
pub fn has_next(link: Option<&str>) -> (r: Result<bool, LinkError>)
    ensures
        link is None ==> r == Err::<bool, LinkError>(LinkError::MissingHeader),
        link is Some ==> match link_rels(link->0@) {
            None => r == Err::<bool, LinkError>(LinkError::Malformed),
            Some(rels) => r == Ok::<bool, LinkError>(rels.contains(next_rel())),
        },
{
    match link {
        None => Err(LinkError::MissingHeader),
        Some(header) => match link_relations(header) {
            None => Err(LinkError::Malformed),
            Some(rels) => Ok(rels_have_next(&rels)),
        },
    }
}

} // verus!
