use vstd::prelude::*;

verus! {

/// `s` with every occurrence of `from` replaced by `to`, scanning from the
/// left and never letting two replaced occurrences overlap.
pub open spec fn replaced(s: Seq<char>, from: Seq<char>, to: Seq<char>) -> Seq<char>
    decreases s.len(),
{
    if from.len() == 0 || s.len() < from.len() {
        s
    } else if s.subrange(0, from.len() as int) == from {
        to + replaced(s.subrange(from.len() as int, s.len() as int), from, to)
    } else {
        seq![s[0]] + replaced(s.subrange(1, s.len() as int), from, to)
    }
}

/// Relies on `String::push`: appends one character.
#[verifier::external_body]
fn push_char(s: &mut String, c: char)
    ensures
        final(s)@ == old(s)@.push(c),
{
    s.push(c)
}

/// The characters of `s`, in order.
pub fn chars_of(s: &str) -> (r: Vec<char>)
    ensures
        r@ == s@,
{
    let mut r: Vec<char> = Vec::new();
    for c in it: s.chars()
        invariant
            r@ == it.seq().subrange(0, it.index() as int),
    {
        r.push(c);
    }
    r
}


/// Whether `pat` occurs in `s` starting at position `i`.
fn occurs_at(s: &Vec<char>, i: usize, pat: &Vec<char>) -> (r: bool)
    requires
        i + pat@.len() <= s@.len(),
    ensures
        r == (s@.subrange(i as int, i + pat@.len()) == pat@),
{
    let m = pat.len();
    let mut j: usize = 0;
    while j < m
        invariant
            j <= m,
            m == pat@.len(),
            i + m <= s.len(),
            forall|k: int| 0 <= k < j ==> s@[i + k] == pat@[k],
        decreases m - j,
    {
        if s[i + j] != pat[j] {
            assert(s@.subrange(i as int, i + m)[j as int] != pat@[j as int]);
            return false;
        }
        j = j + 1;
    }
    assert(s@.subrange(i as int, i + m) =~= pat@);
    true
}

/// Whether `pat` occurs anywhere in `s`.
pub open spec fn occurs_in(s: Seq<char>, pat: Seq<char>) -> bool {
    exists|i: int| 0 <= i <= s.len() - pat.len() && #[trigger] s.subrange(i, i + pat.len()) == pat
}

/// Replacement alters nothing in text where the marker does not occur.
pub proof fn lemma_replaced_without_marker(s: Seq<char>, from: Seq<char>, to: Seq<char>)
    requires
        !occurs_in(s, from),
    ensures
        replaced(s, from, to) == s,
    decreases s.len(),
{
    if from.len() == 0 || s.len() < from.len() {
    } else {
        if s.subrange(0, from.len() as int) == from {
            assert(s.subrange(0, 0 + from.len() as int) == from);
        }
        let t = s.subrange(1, s.len() as int);
        assert forall|i: int| 0 <= i <= t.len() - from.len() implies #[trigger] t.subrange(
            i,
            i + from.len(),
        ) != from by {
            assert(t.subrange(i, i + from.len()) =~= s.subrange(i + 1, i + 1 + from.len()));
        }
        lemma_replaced_without_marker(t, from, to);
        assert(seq![s[0]] + t =~= s);
    }
}

/// Replacement distributes over a marker placed between two pieces of text
/// that hold no marker and cannot form one across their joins: each marker
/// becomes exactly one target marker, and the text around it is kept.
pub proof fn lemma_replaced_single_marker(
    a: Seq<char>,
    b: Seq<char>,
    from: Seq<char>,
    to: Seq<char>,
)
    requires
        from.len() > 0,
        forall|i: int| 0 <= i < a.len() ==> #[trigger] (a + from + b).subrange(i, i + from.len()) != from,
        !occurs_in(b, from),
    ensures
        replaced(a + from + b, from, to) == a + to + b,
    decreases a.len(),
{
    let s = a + from + b;
    if a.len() == 0 {
        assert(s.subrange(0, from.len() as int) =~= from);
        assert(s.subrange(from.len() as int, s.len() as int) =~= b);
        lemma_replaced_without_marker(b, from, to);
        assert(a + to + b =~= to + b);
    } else {
        assert(s.subrange(0, 0 + from.len() as int) != from);
        let a1 = a.subrange(1, a.len() as int);
        let t = a1 + from + b;
        assert(s.subrange(1, s.len() as int) =~= t);
        assert forall|i: int| 0 <= i < a1.len() implies #[trigger] t.subrange(
            i,
            i + from.len(),
        ) != from by {
            assert(t.subrange(i, i + from.len()) =~= s.subrange(i + 1, i + 1 + from.len()));
        }
        lemma_replaced_single_marker(a1, b, from, to);
        assert(seq![s[0]] + (a1 + to + b) =~= a + to + b);
    }
}

proof fn lemma_replaced_short(s: Seq<char>, from: Seq<char>, to: Seq<char>)
    requires
        s.len() < from.len(),
    ensures
        replaced(s, from, to) == s,
{
}

/// `source` with every occurrence of `from` replaced by `to`, leftmost first
/// and without overlaps, as `str::replace` does.
pub fn replace_all(source: &str, from: &str, to: &str) -> (r: String)
    requires
        from@.len() > 0,
    ensures
        r@ == replaced(source@, from@, to@),
{
    let s = chars_of(source);
    let pat = chars_of(from);
    let n = s.len();
    let m = pat.len();
    let mut out: String = String::new();
    let mut i: usize = 0;
    assert(s@.subrange(0, n as int) =~= s@);
    assert(out@ + s@ =~= s@);
    while i < n
        invariant
            i <= n,
            n == s@.len(),
            m == pat@.len(),
            m > 0,
            s@ == source@,
            pat@ == from@,
            out@ + replaced(s@.subrange(i as int, n as int), pat@, to@) == replaced(source@, from@, to@),
        decreases n - i,
    {
        let ghost rest = s@.subrange(i as int, n as int);
        if m <= n - i && occurs_at(&s, i, &pat) {
            proof {
                assert(rest.subrange(0, m as int) =~= s@.subrange(i as int, i + m));
                assert(rest.subrange(m as int, rest.len() as int) =~= s@.subrange(i + m, n as int));
            }
            let ghost prev = out@;
            out.append(to);
            let ghost tail = replaced(s@.subrange(i + m, n as int), pat@, to@);
            assert(out@ + tail =~= prev + (to@ + tail));
            i = i + m;
        } else {
            let c = s[i];
            proof {
                assert(rest.subrange(1, rest.len() as int) =~= s@.subrange(i + 1, n as int));
                if rest.len() < m {
                    lemma_replaced_short(rest, pat@, to@);
                    lemma_replaced_short(rest.subrange(1, rest.len() as int), pat@, to@);
                    assert(rest =~= seq![c] + rest.subrange(1, rest.len() as int));
                } else {
                    assert(rest.subrange(0, m as int) =~= s@.subrange(i as int, i + m));
                }
            }
            let ghost prev = out@;
            push_char(&mut out, c);
            let ghost tail = replaced(s@.subrange(i + 1, n as int), pat@, to@);
            assert(out@ + tail =~= prev + (seq![c] + tail));
            i = i + 1;
        }
    }
    assert(s@.subrange(n as int, n as int) =~= Seq::<char>::empty());
    assert(out@ + Seq::<char>::empty() =~= out@);
    out
}

} // verus!
