//! Log filter directives: a default level followed by per-crate levels.

use vstd::prelude::*;

verus! {

/// The per-crate directives `crate=level`, separated by commas.
pub open spec fn crate_directives(crates: Seq<(Seq<char>, Seq<char>)>) -> Seq<char>
    decreases crates.len(),
{
    if crates.len() == 0 {
        Seq::empty()
    } else if crates.len() == 1 {
        crates[0].0 + "="@ + crates[0].1
    } else {
        crate_directives(crates.drop_last()) + ","@ + crates.last().0 + "="@ + crates.last().1
    }
}

/// The views of crate and level names.
pub open spec fn crate_views(crates: Seq<(String, String)>) -> Seq<(Seq<char>, Seq<char>)> {
    crates.map_values(|c: (String, String)| (c.0@, c.1@))
}

/// The directives of a default level and per-crate levels: the default
/// level, a comma, then the per-crate directives.
pub open spec fn level_directives(level: Seq<char>, crates: Seq<(Seq<char>, Seq<char>)>) -> Seq<char> {
    level + ","@ + crate_directives(crates)
}

/// Builds the directives of `level` and `crates`.
pub fn format_levels(level: &String, crates: &Vec<(String, String)>) -> (directives: String)
    ensures
        directives@ == level_directives(level@, crate_views(crates@)),
{
    let ghost all = crate_views(crates@);
    let mut joined = String::new();
    let mut i: usize = 0;
    while i < crates.len()
        invariant
            i <= crates.len(),
            all == crate_views(crates@),
            joined@ == crate_directives(all.take(i as int)),
        decreases crates.len() - i,
    {
        assert(all.take(i + 1).drop_last() =~= all.take(i as int));
        if i > 0 {
            joined.append(",");
        }
        joined.append(crates[i].0.as_str());
        joined.append("=");
        joined.append(crates[i].1.as_str());
        proof {
            if i == 0 {
                assert(joined@ =~= crate_directives(all.take(1)));
            } else {
                assert(joined@ =~= crate_directives(all.take(i + 1)));
            }
        }
        i = i + 1;
    }
    assert(all.take(crates.len() as int) =~= all);
    let mut directives = level.clone();
    directives.append(",");
    directives.append(joined.as_str());
    assert(directives@ =~= level_directives(level@, all));
    directives
}

} // verus!
