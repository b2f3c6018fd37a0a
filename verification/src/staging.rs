//! The staging path: where a new database file is built before it is renamed
//! onto its destination.

use vstd::prelude::*;

verus! {

/// The suffix that turns a destination path into its staging path.
pub open spec fn staging_suffix() -> Seq<char> {
    seq!['.', 't', 'm', 'p']
}

/// The staging path that belongs to the destination `out_path`.
pub open spec fn staging_path_of(out_path: Seq<char>) -> Seq<char> {
    out_path + staging_suffix()
}

/// Computes the staging path for `out_path`: the destination followed by
/// `.tmp`, so that both lie in the same directory and on the same volume.
pub fn staging_path(out_path: &str) -> (staged: String)
    ensures
        staged@ == staging_path_of(out_path@),
{
    proof {
        reveal_strlit(".tmp");
        assert(".tmp"@ =~= staging_suffix());
    }
    let staged = String::from_str(out_path);
    staged.concat(".tmp")
}

/// A staging path is never its own destination: staging a file cannot
/// overwrite the file that is to be replaced.
pub proof fn lemma_staging_path_differs(out_path: Seq<char>)
    ensures
        staging_path_of(out_path) != out_path,
{
    assert(staging_path_of(out_path).len() == out_path.len() + 4);
}

/// Different destinations have different staging paths: writers to
/// different destinations never share a staging file.
pub proof fn lemma_staging_path_injective(first: Seq<char>, second: Seq<char>)
    requires
        staging_path_of(first) == staging_path_of(second),
    ensures
        first == second,
{
    let staged = staging_path_of(first);
    assert(staged.len() == first.len() + 4);
    assert(staged.len() == second.len() + 4);
    assert forall|i: int| 0 <= i < first.len() implies first[i] == second[i] by {
        assert(staging_path_of(first)[i] == first[i]);
        assert(staging_path_of(second)[i] == second[i]);
    }
    assert(first =~= second);
}

} // verus!
