//! Text assembly helpers: joining parts with a separator and truncating a
//! string to a character count.

use vstd::prelude::*;

verus! {

/// The parts joined with the separator between consecutive parts.
pub open spec fn spec_join(parts: Seq<Seq<char>>, sep: Seq<char>) -> Seq<char>
    decreases parts.len(),
{
    if parts.len() == 0 {
        Seq::empty()
    } else if parts.len() == 1 {
        parts[0]
    } else {
        parts[0] + sep + spec_join(parts.drop_first(), sep)
    }
}

/// The string cut down to its first `n` characters (all of them when it is
/// shorter).
pub open spec fn spec_truncate(s: Seq<char>, n: int) -> Seq<char> {
    if s.len() <= n {
        s
    } else {
        s.take(n)
    }
}

/// Joining one more part appends a separator (except to nothing) and the part.
pub proof fn lemma_join_push(parts: Seq<Seq<char>>, sep: Seq<char>, x: Seq<char>)
    ensures
        parts.len() == 0 ==> spec_join(parts.push(x), sep) == x,
        parts.len() > 0 ==> spec_join(parts.push(x), sep) == spec_join(parts, sep) + sep + x,
    decreases parts.len(),
{
    if parts.len() == 0 {
        assert(spec_join(parts.push(x), sep) == parts.push(x)[0]);
        assert(parts.push(x)[0] == x);
    } else if parts.len() == 1 {
        assert(parts.push(x).drop_first() =~= seq![x]);
        assert(seq![x].len() == 1);
        assert(spec_join(seq![x], sep) == x);
        assert(parts.push(x)[0] == parts[0]);
        assert(spec_join(parts.push(x), sep) == parts.push(x)[0] + sep + spec_join(
            parts.push(x).drop_first(),
            sep,
        ));
        assert(spec_join(parts.push(x), sep) == parts[0] + sep + x);
    } else {
        lemma_join_push(parts.drop_first(), sep, x);
        assert(parts.push(x).drop_first() =~= parts.drop_first().push(x));
        assert(parts[0] + sep + (spec_join(parts.drop_first(), sep) + sep + x) =~= (parts[0] + sep
            + spec_join(parts.drop_first(), sep)) + sep + x);
    }
}

/// Joins the parts with the separator between consecutive parts.
pub fn join_strings(parts: &Vec<String>, sep: &str) -> (r: String)
    ensures
        r@ =~= spec_join(parts@.map_values(|s: String| s@), sep@),
{
    let ghost m = parts@.map_values(|s: String| s@);
    let mut r = String::new();
    let mut i: usize = 0;
    while i < parts.len()
        invariant
            i <= parts@.len(),
            m == parts@.map_values(|s: String| s@),
            r@ =~= spec_join(m.take(i as int), sep@),
        decreases parts@.len() - i,
    {
        if i > 0 {
            r.append(sep);
        }
        r.append(parts[i].as_str());
        i += 1;
        proof {
            assert(m.take(i as int).drop_last() =~= m.take(i - 1));
            assert(m.take(i as int) =~= m.take(i - 1).push(m[i - 1]));
            lemma_join_push(m.take(i - 1), sep@, m[i - 1]);
        }
    }
    proof {
        assert(m.take(parts@.len() as int) =~= m);
    }
    r
}

/// Cuts a string down to its first `n` characters.
pub fn truncate_chars(s: &str, n: usize) -> (r: String)
    ensures
        r@ =~= spec_truncate(s@, n as int),
{
    let len = s.unicode_len();
    if len <= n {
        String::from_str(s)
    } else {
        String::from_str(s.substring_char(0, n))
    }
}

} // verus!
