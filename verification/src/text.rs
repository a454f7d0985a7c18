//! The textual layout of vectors, matrices and transforms: a list of parts
//! between square brackets, separated by a comma and a space. Vectors list
//! their components, matrices and transforms list their columns, each laid
//! out as a vector.
use vstd::prelude::*;
use vstd::string::*;

verus! {

/// `parts` joined with `sep` between each two neighbours.
pub open spec fn spec_join(parts: Seq<Seq<char>>, sep: Seq<char>) -> Seq<char>
    decreases parts.len(),
{
    if parts.len() == 0 {
        Seq::empty()
    } else if parts.len() == 1 {
        parts[0]
    } else {
        spec_join(parts.drop_last(), sep) + sep + parts.last()
    }
}

/// The separator between two parts: a comma and a space.
pub open spec fn spec_separator() -> Seq<char> {
    seq![',', ' ']
}

/// `parts` between square brackets, separated by a comma and a space.
pub open spec fn spec_bracketed(parts: Seq<Seq<char>>) -> Seq<char> {
    seq!['['] + spec_join(parts, spec_separator()) + seq![']']
}

/// The characters of each string of `parts`.
pub open spec fn spec_views(parts: Seq<String>) -> Seq<Seq<char>> {
    parts.map_values(|s: String| s@)
}

/// Lays out `parts` between square brackets, separated by a comma and a
/// space: `["1", "2"]` gives `[1, 2]`.
pub fn bracketed(parts: &[String]) -> (r: String)
    ensures
        r@ == spec_bracketed(spec_views(parts@)),
{
    proof {
        reveal_strlit("[");
        reveal_strlit("]");
        reveal_strlit(", ");
        assert("["@ =~= seq!['[']);
        assert("]"@ =~= seq![']']);
        assert(", "@ =~= spec_separator());
    }
    let mut out = String::new();
    out.append("[");
    let mut i: usize = 0;
    while i < parts.len()
        invariant
            i <= parts@.len(),
            ", "@ == spec_separator(),
            out@ == seq!['['] + spec_join(spec_views(parts@.take(i as int)), spec_separator()),
        decreases parts@.len() - i,
    {
        let ghost before = spec_views(parts@.take(i as int));
        let ghost after = spec_views(parts@.take(i + 1));
        assert(after.drop_last() =~= before);
        assert(after.len() == i + 1);
        assert(after.last() == parts@[i as int]@);
        if i > 0 {
            out.append(", ");
            out.append(parts[i].as_str());
            assert(spec_join(after, spec_separator()) == spec_join(before, spec_separator())
                + spec_separator() + parts@[i as int]@);
            assert(out@ =~= seq!['['] + spec_join(after, spec_separator()));
        } else {
            out.append(parts[i].as_str());
            assert(spec_join(after, spec_separator()) == parts@[0]@);
            assert(out@ =~= seq!['['] + spec_join(after, spec_separator()));
        }
        i = i + 1;
    }
    out.append("]");
    assert(parts@.take(parts@.len() as int) =~= parts@);
    out
}

} // verus!
