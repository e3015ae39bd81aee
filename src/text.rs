//! Character-level helpers: turning string slices into characters and
//! splitting a string on a separator, with the split stated exactly.

use vstd::prelude::*;
use vstd::std_specs::iter::IteratorSpec;

verus! {

/// The pieces of `cur + rest` when `rest` is cut at each occurrence of
/// `sep`, scanning from the left and never letting two occurrences overlap;
/// `cur` is the start of the piece being gathered.
pub open spec fn split_from(cur: Seq<char>, rest: Seq<char>, sep: Seq<char>) -> Seq<Seq<char>>
    decreases rest.len(),
{
    if rest.len() == 0 {
        seq![cur]
    } else if 0 < sep.len() <= rest.len() && rest.subrange(0, sep.len() as int) == sep {
        seq![cur] + split_from(Seq::empty(), rest.subrange(sep.len() as int, rest.len() as int), sep)
    } else {
        split_from(cur.push(rest[0]), rest.subrange(1, rest.len() as int), sep)
    }
}

/// The pieces of `s` between the occurrences of `sep`: always at least one,
/// and one more than the number of occurrences.
pub open spec fn split_seq(s: Seq<char>, sep: Seq<char>) -> Seq<Seq<char>> {
    split_from(Seq::empty(), s, sep)
}

/// The characters of each string of a sequence.
pub open spec fn views(v: Seq<String>) -> Seq<Seq<char>> {
    v.map_values(|x: String| x@)
}

/// Splitting gives at least one piece.
pub proof fn lemma_split_nonempty(cur: Seq<char>, rest: Seq<char>, sep: Seq<char>)
    ensures
        split_from(cur, rest, sep).len() >= 1,
    decreases rest.len(),
{
    if rest.len() == 0 {
    } else if 0 < sep.len() <= rest.len() && rest.subrange(0, sep.len() as int) == sep {
        lemma_split_nonempty(Seq::empty(), rest.subrange(sep.len() as int, rest.len() as int), sep);
    } else {
        lemma_split_nonempty(cur.push(rest[0]), rest.subrange(1, rest.len() as int), sep);
    }
}

/// The first `k` characters of `w` join the piece being gathered when no
/// occurrence of `sep` starts among them.
pub proof fn lemma_split_skip(cur: Seq<char>, w: Seq<char>, k: int, sep: Seq<char>)
    requires
        0 <= k <= w.len(),
        forall|i: int|
            0 <= i < k ==> !(0 < sep.len() && i + sep.len() <= w.len() && #[trigger] w.subrange(
                i,
                i + sep.len(),
            ) == sep),
    ensures
        split_from(cur, w, sep) == split_from(cur + w.subrange(0, k), w.subrange(k, w.len() as int), sep),
    decreases k,
{
    if k == 0 {
        assert(cur + w.subrange(0, 0) =~= cur);
        assert(w.subrange(0, w.len() as int) =~= w);
    } else {
        let z: int = 0;
        let first = w.subrange(z, z + sep.len());
        assert(!(0 < sep.len() && sep.len() <= w.len() && first == sep));
        let t = w.subrange(1, w.len() as int);
        assert forall|i: int|
            0 <= i < k - 1 implies !(0 < sep.len() && i + sep.len() <= t.len() && #[trigger] t.subrange(
                i,
                i + sep.len(),
            ) == sep) by {
            if 0 < sep.len() && i + sep.len() <= t.len() {
                assert(t.subrange(i, i + sep.len()) =~= w.subrange(i + 1, i + 1 + sep.len()));
            }
        }
        lemma_split_skip(cur.push(w[0]), t, k - 1, sep);
        assert(cur.push(w[0]) + t.subrange(0, k - 1) =~= cur + w.subrange(0, k));
        assert(t.subrange(k - 1, t.len() as int) =~= w.subrange(k, w.len() as int));
    }
}

/// Text free of the separator character stays in the piece being gathered.
pub proof fn lemma_split_without_sep(cur: Seq<char>, a: Seq<char>, rest: Seq<char>, c: char)
    requires
        !a.contains(c),
    ensures
        split_from(cur, a + rest, seq![c]) == split_from(cur + a, rest, seq![c]),
    decreases a.len(),
{
    if a.len() == 0 {
        assert(a + rest =~= rest);
        assert(cur + a =~= cur);
    } else {
        let whole = a + rest;
        assert(whole[0] == a[0]);
        assert(whole.subrange(0, 1)[0] == a[0]);
        assert(a[0] != c);
        assert(whole.subrange(0, 1) != seq![c]);
        let tail = a.subrange(1, a.len() as int);
        assert(whole.subrange(1, whole.len() as int) =~= tail + rest);
        assert forall|k: int| 0 <= k < tail.len() implies tail[k] != c by {
            assert(tail[k] == a[k + 1]);
        }
        lemma_split_without_sep(cur.push(a[0]), tail, rest, c);
        assert(cur.push(a[0]) + tail =~= cur + a);
    }
}

/// Text free of the separator character is a single piece.
pub proof fn lemma_split_single(s: Seq<char>, c: char)
    requires
        !s.contains(c),
    ensures
        split_seq(s, seq![c]) == seq![s],
{
    lemma_split_without_sep(Seq::empty(), s, Seq::empty(), c);
    assert(s + Seq::<char>::empty() =~= s);
    assert(Seq::<char>::empty() + s =~= s);
}

/// Two pieces free of the separator character, joined by it, split back
/// into those two pieces.
pub proof fn lemma_split_pair(a: Seq<char>, b: Seq<char>, c: char)
    requires
        !a.contains(c),
        !b.contains(c),
    ensures
        split_seq(a + seq![c] + b, seq![c]) == seq![a, b],
{
    let rest = seq![c] + b;
    assert(a + seq![c] + b =~= a + rest);
    lemma_split_without_sep(Seq::empty(), a, rest, c);
    assert(Seq::<char>::empty() + a =~= a);
    assert(rest.subrange(0, 1) =~= seq![c]);
    assert(rest.subrange(1, rest.len() as int) =~= b);
    lemma_split_single(b, c);
    assert(seq![a] + seq![b] =~= seq![a, b]);
}

/// Relies on `String::push`: the character is appended at the end.
#[verifier::external_body]
fn push_char(s: &mut String, c: char)
    ensures
        final(s)@ == old(s)@.push(c),
{
    s.push(c)
}

/// The characters of `s`, in order.
pub fn chars_of(s: &str) -> (r: Vec<char>)
    ensures
        r@ == s@,
{
    let mut it = s.chars();
    let mut out: Vec<char> = Vec::new();
    loop
        invariant
            out@ + it.remaining() == s@,
            it.decrease() is Some,
        decreases it.decrease()->0,
    {
        match it.next() {
            Some(c) => {
                out.push(c);
            },
            None => {
                assert(out@ =~= s@);
                return out;
            },
        }
    }
}

/// A string holding the characters `cs[lo..hi]`.
pub fn string_of(cs: &Vec<char>, lo: usize, hi: usize) -> (r: String)
    requires
        lo <= hi <= cs@.len(),
    ensures
        r@ == cs@.subrange(lo as int, hi as int),
{
    let mut out = String::new();
    let mut i: usize = lo;
    while i < hi
        invariant
            lo <= i <= hi <= cs@.len(),
            out@ == cs@.subrange(lo as int, i as int),
        decreases hi - i,
    {
        push_char(&mut out, cs[i]);
        assert(cs@.subrange(lo as int, i + 1) =~= cs@.subrange(lo as int, i as int).push(cs@[i as int]));
        i = i + 1;
    }
    out
}

/// Whether `sep` occurs in `cs` at position `i`.
fn occurs_at(cs: &Vec<char>, i: usize, sep: &Vec<char>) -> (r: bool)
    requires
        i <= cs@.len(),
    ensures
        r == (sep@.len() <= cs@.len() - i && cs@.subrange(i as int, i + sep@.len()) == sep@),
{
    if sep.len() > cs.len() - i {
        return false;
    }
    let mut j: usize = 0;
    while j < sep.len()
        invariant
            i <= cs@.len() <= usize::MAX,
            sep@.len() <= cs@.len() - i,
            j <= sep@.len(),
            forall|k: int| 0 <= k < j ==> cs@[i + k] == sep@[k],
        decreases sep@.len() - j,
    {
        if cs[i + j] != sep[j] {
            assert(cs@.subrange(i as int, i + sep@.len())[j as int] != sep@[j as int]);
            return false;
        }
        j = j + 1;
    }
    assert(cs@.subrange(i as int, i + sep@.len()) =~= sep@);
    true
}

/// The pieces of `s` between the occurrences of `sep`, as `str::split`
/// gives them for a separator that is not empty.
pub fn split_str(s: &str, sep: &str) -> (r: Vec<String>)
    requires
        sep@.len() > 0,
    ensures
        views(r@) == split_seq(s@, sep@),
{
    let cs = chars_of(s);
    let sp = chars_of(sep);
    let n = cs.len();
    let mut out: Vec<String> = Vec::new();
    let mut start: usize = 0;
    let mut i: usize = 0;
    assert(cs@.subrange(0, n as int) =~= cs@);
    assert(cs@.subrange(0, 0) =~= Seq::<char>::empty());
    assert(views(out@) + split_seq(s@, sep@) =~= split_seq(s@, sep@));
    while i < n
        invariant
            n == cs@.len(),
            cs@ == s@,
            sp@ == sep@,
            sp@.len() > 0,
            start <= i <= n,
            views(out@) + split_from(cs@.subrange(start as int, i as int), cs@.subrange(i as int, n as int), sp@)
                == split_seq(s@, sep@),
        decreases n - i,
    {
        let rest = Ghost(cs@.subrange(i as int, n as int));
        let cur = Ghost(cs@.subrange(start as int, i as int));
        if occurs_at(&cs, i, &sp) {
            let piece = string_of(&cs, start, i);
            let after = Ghost(cs@.subrange(i + sp@.len(), n as int));
            assert(rest@.subrange(0, sp@.len() as int) =~= cs@.subrange(i as int, i + sp@.len()));
            assert(rest@.subrange(sp@.len() as int, rest@.len() as int) =~= after@);
            assert(split_from(cur@, rest@, sp@)
                == seq![cur@] + split_from(Seq::empty(), after@, sp@));
            assert(views(out@.push(piece)) =~= views(out@).push(piece@));
            assert(views(out@).push(piece@) + split_from(Seq::empty(), after@, sp@)
                =~= views(out@) + (seq![cur@] + split_from(Seq::empty(), after@, sp@)));
            out.push(piece);
            i = i + sp.len();
            start = i;
            assert(cs@.subrange(start as int, i as int) =~= Seq::<char>::empty());
        } else {
            proof {
                if sp@.len() <= rest@.len() {
                    assert(rest@.subrange(0, sp@.len() as int) =~= cs@.subrange(i as int, i + sp@.len()));
                }
            }
            assert(rest@.subrange(1, rest@.len() as int) =~= cs@.subrange(i + 1, n as int));
            assert(cur@.push(rest@[0]) =~= cs@.subrange(start as int, i + 1));
            i = i + 1;
        }
    }
    let last = string_of(&cs, start, n);
    assert(views(out@.push(last)) =~= views(out@).push(last@));
    assert(views(out@) + seq![last@] =~= views(out@).push(last@));
    out.push(last);
    out
}

} // verus!
