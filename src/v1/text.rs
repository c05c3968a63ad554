//! Text helpers for query parameters: decimal rendering of numbers, and the
//! comma-separated lists that carry several ids in one parameter.
use vstd::prelude::*;

verus! {

/// The decimal digit character for `d`.
pub open spec fn digit_char(d: nat) -> char
    recommends
        d < 10,
{
    if d == 0 { '0' }
    else if d == 1 { '1' }
    else if d == 2 { '2' }
    else if d == 3 { '3' }
    else if d == 4 { '4' }
    else if d == 5 { '5' }
    else if d == 6 { '6' }
    else if d == 7 { '7' }
    else if d == 8 { '8' }
    else { '9' }
}

/// The decimal text of `n`, without sign or leading zeros.
pub open spec fn decimal(n: nat) -> Seq<char>
    decreases n,
{
    if n < 10 {
        seq![digit_char(n)]
    } else {
        decimal(n / 10).push(digit_char(n % 10))
    }
}

/// The one-character text of digit `d`.
fn digit_str(d: u64) -> (r: &'static str)
    requires
        d < 10,
    ensures
        r@ == seq![digit_char(d as nat)],
{
    proof {
        reveal_strlit("0");
        reveal_strlit("1");
        reveal_strlit("2");
        reveal_strlit("3");
        reveal_strlit("4");
        reveal_strlit("5");
        reveal_strlit("6");
        reveal_strlit("7");
        reveal_strlit("8");
        reveal_strlit("9");
    }
    match d {
        0 => "0",
        1 => "1",
        2 => "2",
        3 => "3",
        4 => "4",
        5 => "5",
        6 => "6",
        7 => "7",
        8 => "8",
        _ => "9",
    }
}

/// Renders `n` in decimal.
pub fn decimal_string(n: u64) -> (r: String)
    ensures
        r@ == decimal(n as nat),
    decreases n,
{
    if n < 10 {
        String::from_str(digit_str(n))
    } else {
        let mut s = decimal_string(n / 10);
        s.append(digit_str(n % 10));
        s
    }
}

/// The texts of `parts` joined with `,` between neighbours.
pub open spec fn joined(parts: Seq<Seq<char>>) -> Seq<char>
    decreases parts.len(),
{
    if parts.len() == 0 {
        Seq::empty()
    } else if parts.len() == 1 {
        parts[0]
    } else {
        joined(parts.drop_last()) + seq![','] + parts.last()
    }
}

/// The views of a list of string slices.
pub open spec fn views_of(parts: Seq<&str>) -> Seq<Seq<char>> {
    parts.map_values(|p: &str| p@)
}

/// Joins `parts` with `,` between neighbours, keeping their order.
pub fn join_with_commas(parts: &Vec<&str>) -> (r: String)
    ensures
        r@ == joined(views_of(parts@)),
{
    let mut s = String::new();
    let mut i: usize = 0;
    proof {
        reveal_strlit(",");
        assert(views_of(parts@.take(0)) =~= Seq::<Seq<char>>::empty());
    }
    while i < parts.len()
        invariant
            0 <= i <= parts@.len(),
            s@ == joined(views_of(parts@.take(i as int))),
            ","@ == seq![','],
        decreases parts@.len() - i,
    {
        let ghost before = views_of(parts@.take(i as int));
        let ghost after = views_of(parts@.take(i + 1));
        assert(after.drop_last() =~= before);
        if i > 0 {
            s.append(",");
        }
        s.append(parts[i]);
        proof {
            if i == 0 {
                assert(s@ =~= after[0]);
            } else {
                assert(s@ =~= joined(before) + seq![','] + after.last());
            }
        }
        i = i + 1;
    }
    assert(parts@.take(parts@.len() as int) =~= parts@);
    s
}

/// The pieces of `s` between commas, in order; text without a comma is one piece.
pub open spec fn split_at_commas(s: Seq<char>) -> Seq<Seq<char>>
    decreases s.len(),
{
    if s.len() == 0 {
        seq![Seq::empty()]
    } else {
        let pieces = split_at_commas(s.drop_last());
        if s.last() == ',' {
            pieces.push(Seq::empty())
        } else {
            pieces.update(pieces.len() - 1, pieces.last().push(s.last()))
        }
    }
}

/// Whether `s` holds no comma.
pub open spec fn comma_free(s: Seq<char>) -> bool {
    forall|i: int| 0 <= i < s.len() ==> s[i] != ','
}

proof fn lemma_split_nonempty(s: Seq<char>)
    ensures
        split_at_commas(s).len() >= 1,
    decreases s.len(),
{
    if s.len() > 0 {
        lemma_split_nonempty(s.drop_last());
    }
}

/// Text without a comma appended to `p` extends the last piece of `p`.
proof fn lemma_split_extend(p: Seq<char>, t: Seq<char>)
    requires
        comma_free(t),
    ensures
        split_at_commas(p + t) == split_at_commas(p).update(
            split_at_commas(p).len() - 1,
            split_at_commas(p).last() + t,
        ),
    decreases t.len(),
{
    lemma_split_nonempty(p);
    if t.len() == 0 {
        assert(p + t =~= p);
        assert(split_at_commas(p).last() + t =~= split_at_commas(p).last());
        assert(split_at_commas(p).update(split_at_commas(p).len() - 1, split_at_commas(p).last())
            =~= split_at_commas(p));
    } else {
        let t0 = t.drop_last();
        lemma_split_extend(p, t0);
        assert((p + t).drop_last() =~= p + t0);
        assert((p + t).last() == t.last());
        assert(split_at_commas(p).last() + t0 + seq![t.last()] =~= split_at_commas(p).last() + t);
        lemma_split_nonempty(p + t0);
        let q = split_at_commas(p);
        let n = q.len() - 1;
        let pieces = split_at_commas(p + t0);
        assert(t[t.len() - 1] != ',');
        assert(pieces == q.update(n, q.last() + t0));
        assert(pieces.len() == q.len());
        assert(pieces.last() == q.last() + t0);
        assert(pieces.last().push(t.last()) =~= q.last() + t);
        assert(split_at_commas(p + t) == pieces.update(n, pieces.last().push(t.last())));
        assert(split_at_commas(p + t) =~= q.update(n, q.last() + t));
    }
}

/// Joining ids that hold no comma loses nothing: splitting the joined text at
/// its commas gives back the same ids, in the same order, duplicates kept.
pub proof fn lemma_split_joined(parts: Seq<Seq<char>>)
    requires
        parts.len() > 0,
        forall|i: int| 0 <= i < parts.len() ==> comma_free(#[trigger] parts[i]),
    ensures
        split_at_commas(joined(parts)) == parts,
    decreases parts.len(),
{
    if parts.len() == 1 {
        lemma_split_extend(Seq::empty(), parts[0]);
        assert(Seq::<char>::empty() + parts[0] =~= parts[0]);
        assert(split_at_commas(Seq::empty()).last() + parts[0] =~= parts[0]);
        assert(split_at_commas(joined(parts)) =~= parts);
    } else {
        let prefix = parts.drop_last();
        assert(forall|i: int| 0 <= i < prefix.len() ==> prefix[i] == parts[i]);
        lemma_split_joined(prefix);
        let head = joined(prefix) + seq![','];
        lemma_split_extend(head, parts.last());
        assert(head.drop_last() =~= joined(prefix));
        assert(split_at_commas(head) == prefix.push(Seq::empty()));
        assert(Seq::<char>::empty() + parts.last() =~= parts.last());
        assert(split_at_commas(joined(parts)) =~= parts);
    }
}

} // verus!
