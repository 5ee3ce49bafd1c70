use vstd::prelude::*;

verus! {

/// `s` with every `\r\n` pair replaced by `\n`, leftmost pair first.
pub open spec fn normalize_spec(s: Seq<u8>) -> Seq<u8>
    decreases s.len(),
{
    if s.len() == 0 {
        Seq::empty()
    } else if s.len() >= 2 && s[0] == 13u8 && s[1] == 10u8 {
        seq![10u8] + normalize_spec(s.skip(2))
    } else {
        seq![s[0]] + normalize_spec(s.skip(1))
    }
}

/// The lines of `s`, split on `\n`: `k` separators yield `k + 1` lines.
pub open spec fn split_spec(s: Seq<u8>) -> Seq<Seq<u8>>
    decreases s.len(),
{
    if s.len() == 0 {
        seq![Seq::<u8>::empty()]
    } else if s[0] == 10u8 {
        seq![Seq::<u8>::empty()] + split_spec(s.skip(1))
    } else {
        let rest = split_spec(s.skip(1));
        seq![seq![s[0]] + rest[0]] + rest.skip(1)
    }
}

/// Splitting always yields at least one line.
pub proof fn lemma_split_nonempty(s: Seq<u8>)
    ensures
        split_spec(s).len() >= 1,
    decreases s.len(),
{
    if s.len() == 0 {
    } else {
        lemma_split_nonempty(s.skip(1));
    }
}

/// A sequence without separators is a single line.
pub proof fn lemma_split_no_lf(s: Seq<u8>)
    requires
        forall|i: int| 0 <= i < s.len() ==> s[i] != 10u8,
    ensures
        split_spec(s) == seq![s],
    decreases s.len(),
{
    if s.len() == 0 {
        assert(s =~= Seq::<u8>::empty());
    } else {
        lemma_split_no_lf(s.skip(1));
        lemma_split_nonempty(s.skip(1));
        assert(seq![s[0]] + s.skip(1) =~= s);
        assert((seq![s.skip(1)]).skip(1) =~= Seq::<Seq<u8>>::empty());
        assert(split_spec(s) =~= seq![s]);
    }
}

/// A separator after a separator-free prefix splits off exactly that prefix.
pub proof fn lemma_split_prepend_line(a: Seq<u8>, b: Seq<u8>)
    requires
        forall|i: int| 0 <= i < a.len() ==> a[i] != 10u8,
    ensures
        split_spec(a + seq![10u8] + b) == seq![a] + split_spec(b),
    decreases a.len(),
{
    let s = a + seq![10u8] + b;
    if a.len() == 0 {
        assert(s[0] == 10u8);
        assert(s.skip(1) =~= b);
        assert(a =~= Seq::<u8>::empty());
        assert(split_spec(s) =~= seq![a] + split_spec(b));
    } else {
        lemma_split_prepend_line(a.skip(1), b);
        lemma_split_nonempty(b);
        assert(s[0] == a[0]);
        assert(s[0] != 10u8);
        assert(s.skip(1) =~= a.skip(1) + seq![10u8] + b);
        let rest = split_spec(s.skip(1));
        assert(rest == seq![a.skip(1)] + split_spec(b));
        assert(rest[0] == a.skip(1));
        assert(rest.skip(1) =~= split_spec(b));
        assert(seq![s[0]] + a.skip(1) =~= a);
        assert(split_spec(s) =~= seq![a] + split_spec(b));
    }
}

/// Normalization leaves a sequence without `\r` unchanged.
pub proof fn lemma_normalize_no_cr(s: Seq<u8>)
    requires
        forall|i: int| 0 <= i < s.len() ==> s[i] != 13u8,
    ensures
        normalize_spec(s) == s,
    decreases s.len(),
{
    if s.len() == 0 {
        assert(normalize_spec(s) =~= s);
    } else {
        lemma_normalize_no_cr(s.skip(1));
        assert(seq![s[0]] + s.skip(1) =~= s);
    }
}

/// The deep view of a byte vector is its ordinary view.
pub proof fn lemma_bytes_deep_view(v: Vec<u8>)
    ensures
        v.deep_view() == v@,
{
    assert(v.deep_view() =~= v@);
}

/// Replaces every `\r\n` with `\n`, leftmost pair first.
pub fn normalize_newlines(data: &[u8]) -> (r: Vec<u8>)
    ensures
        r@ == normalize_spec(data@),
{
    let n = data.len();
    let mut out: Vec<u8> = Vec::new();
    let mut i: usize = 0;
    proof {
        assert(data@.skip(0) =~= data@);
        assert(out@ + normalize_spec(data@) =~= normalize_spec(data@));
    }
    while i < n
        invariant
            n == data@.len(),
            i <= n,
            out@ + normalize_spec(data@.skip(i as int)) == normalize_spec(data@),
        decreases n - i,
    {
        let tail = Ghost(data@.skip(i as int));
        if data[i] == 13 && i + 1 < n && data[i + 1] == 10 {
            proof {
                assert(tail@.len() >= 2);
                assert(tail@[0] == 13u8);
                assert(tail@[1] == 10u8);
                assert(tail@.skip(2) =~= data@.skip(i as int + 2));
                assert((out@ + seq![10u8]) + normalize_spec(data@.skip(i as int + 2)) =~= out@
                    + normalize_spec(tail@));
            }
            out.push(10);
            i = i + 2;
        } else {
            proof {
                assert(!(tail@.len() >= 2 && tail@[0] == 13u8 && tail@[1] == 10u8));
                assert(tail@[0] == data@[i as int]);
                assert(tail@.skip(1) =~= data@.skip(i as int + 1));
                assert((out@ + seq![data@[i as int]]) + normalize_spec(data@.skip(i as int + 1))
                    =~= out@ + normalize_spec(tail@));
            }
            out.push(data[i]);
            i = i + 1;
        }
    }
    proof {
        assert(data@.skip(n as int) =~= Seq::<u8>::empty());
        assert(out@ + Seq::<u8>::empty() =~= out@);
    }
    out
}

/// Splits on `\n`, returning every line in order.
pub fn split_lines(data: &[u8]) -> (r: Vec<Vec<u8>>)
    ensures
        r.deep_view() == split_spec(data@),
{
    let n = data.len();
    let mut out: Vec<Vec<u8>> = Vec::new();
    let mut cur: Vec<u8> = Vec::new();
    let mut i: usize = 0;
    proof {
        lemma_split_nonempty(data@);
        assert(data@.skip(0) =~= data@);
        assert(out.deep_view() =~= Seq::<Seq<u8>>::empty());
        assert(split_spec(data@) =~= out.deep_view() + seq![cur@ + split_spec(data@.skip(0))[0]]
            + split_spec(data@.skip(0)).skip(1));
    }
    while i < n
        invariant
            n == data@.len(),
            i <= n,
            split_spec(data@) == out.deep_view() + seq![cur@ + split_spec(data@.skip(i as int))[0]]
                + split_spec(data@.skip(i as int)).skip(1),
        decreases n - i,
    {
        let ghost tail = data@.skip(i as int);
        let ghost next = data@.skip(i as int + 1);
        proof {
            assert(tail.len() > 0);
            assert(tail[0] == data@[i as int]);
            assert(tail.skip(1) =~= next);
            lemma_split_nonempty(next);
        }
        if data[i] == 10 {
            let finished = cur;
            cur = Vec::new();
            proof {
                assert(split_spec(tail) == seq![Seq::<u8>::empty()] + split_spec(next));
                assert(split_spec(tail)[0] =~= Seq::<u8>::empty());
                assert(split_spec(tail).skip(1) =~= split_spec(next));
                assert(finished@ + split_spec(tail)[0] =~= finished@);
            }
            let ghost out_before = out.deep_view();
            proof {
                lemma_bytes_deep_view(finished);
            }
            out.push(finished);
            i = i + 1;
            proof {
                assert(out.deep_view() =~~= out_before.push(finished@));
                assert(split_spec(next) =~= seq![split_spec(next)[0]] + split_spec(next).skip(1));
                assert(cur@ + split_spec(next)[0] =~= split_spec(next)[0]);
                assert(out_before.push(finished@) + seq![split_spec(next)[0]]
                    + split_spec(next).skip(1) =~= out_before + seq![finished@] + split_spec(next));
                assert(out_before + seq![finished@] + split_spec(next) =~= out_before
                    + seq![finished@ + split_spec(tail)[0]] + split_spec(tail).skip(1));
                assert(split_spec(data@) == out.deep_view() + seq![cur@
                    + split_spec(data@.skip(i as int))[0]] + split_spec(data@.skip(i as int)).skip(
                    1));
            }
        } else {
            proof {
                let rest = split_spec(next);
                assert(split_spec(tail) == seq![seq![tail[0]] + rest[0]] + rest.skip(1));
                assert(split_spec(tail)[0] == seq![tail[0]] + rest[0]);
                assert(split_spec(tail).skip(1) =~= rest.skip(1));
            }
            let ghost cur_before = cur@;
            cur.push(data[i]);
            i = i + 1;
            proof {
                assert(cur@ =~= cur_before + seq![tail[0]]);
                assert(cur@ + split_spec(next)[0] =~= cur_before + split_spec(tail)[0]);
                assert(out.deep_view() + seq![cur@ + split_spec(next)[0]] + split_spec(next).skip(1)
                    =~= out.deep_view() + seq![cur_before + split_spec(tail)[0]]
                    + split_spec(tail).skip(1));
                assert(split_spec(data@) == out.deep_view() + seq![cur@
                    + split_spec(data@.skip(i as int))[0]] + split_spec(data@.skip(i as int)).skip(
                    1));
            }
        }
    }
    proof {
        assert(data@.skip(n as int) =~= Seq::<u8>::empty());
        assert(split_spec(data@.skip(n as int)) == seq![Seq::<u8>::empty()]);
        assert(cur@ + split_spec(data@.skip(n as int))[0] =~= cur@);
        assert(split_spec(data@.skip(n as int)).skip(1) =~= Seq::<Seq<u8>>::empty());
    }
    let ghost before = out.deep_view();
    proof {
        lemma_bytes_deep_view(cur);
    }
    out.push(cur);
    proof {
        assert(out.deep_view() =~~= before.push(cur@));
        assert(split_spec(data@) =~= out.deep_view());
    }
    out
}

/// Byte-for-byte equality of two byte sequences.
pub fn bytes_eq(a: &[u8], b: &[u8]) -> (r: bool)
    ensures
        r == (a@ == b@),
{
    if a.len() != b.len() {
        proof {
            if a@ == b@ {
                assert(a@.len() == b@.len());
            }
        }
        return false;
    }
    let n = a.len();
    let mut i: usize = 0;
    while i < n
        invariant
            n == a@.len(),
            n == b@.len(),
            i <= n,
            forall|j: int| 0 <= j < i ==> a@[j] == b@[j],
        decreases n - i,
    {
        if a[i] != b[i] {
            proof {
                if a@ == b@ {
                    assert(a@[i as int] == b@[i as int]);
                }
            }
            return false;
        }
        i = i + 1;
    }
    proof {
        assert(a@ =~= b@);
    }
    true
}

} // verus!
