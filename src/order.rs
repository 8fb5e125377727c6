//! Deterministic ordering of transaction outputs.
use vstd::multiset::Multiset;
use vstd::prelude::*;

verus! {

broadcast use vstd::seq_lib::group_to_multiset_ensures;

/// A transaction output: an amount and the script that locks it.
pub struct Output {
    pub value: u64,
    pub script_pubkey: Vec<u8>,
}

impl View for Output {
    type V = (u64, Seq<u8>);

    open spec fn view(&self) -> (u64, Seq<u8>) {
        (self.value, self.script_pubkey@)
    }
}

/// The models of a sequence of outputs.
pub open spec fn outputs_model(s: Seq<Output>) -> Seq<(u64, Seq<u8>)> {
    s.map_values(|o: Output| o@)
}

/// Byte-lexicographic "less than" of `a` and `b`, looking from index `i` on;
/// a proper prefix comes first.
pub open spec fn bytes_lt_from(a: Seq<u8>, b: Seq<u8>, i: int) -> bool
    decreases b.len() - i,
{
    if i >= b.len() {
        false
    } else if i >= a.len() {
        true
    } else if a[i] != b[i] {
        a[i] < b[i]
    } else {
        bytes_lt_from(a, b, i + 1)
    }
}

/// Byte-lexicographic order on byte strings.
pub open spec fn bytes_lt(a: Seq<u8>, b: Seq<u8>) -> bool {
    bytes_lt_from(a, b, 0)
}

/// Output order: by value, then by script bytes.
pub open spec fn output_lt(x: (u64, Seq<u8>), y: (u64, Seq<u8>)) -> bool {
    x.0 < y.0 || (x.0 == y.0 && bytes_lt(x.1, y.1))
}

pub open spec fn output_le(x: (u64, Seq<u8>), y: (u64, Seq<u8>)) -> bool {
    !output_lt(y, x)
}

/// Every pair of outputs stands in output order.
pub open spec fn is_ordered(s: Seq<(u64, Seq<u8>)>) -> bool {
    forall|i: int, j: int| 0 <= i < j < s.len() ==> output_le(#[trigger] s[i], #[trigger] s[j])
}

/// `r` holds the outputs of `s`, in output order.
pub open spec fn is_ordering_of(r: Seq<(u64, Seq<u8>)>, s: Seq<(u64, Seq<u8>)>) -> bool {
    is_ordered(r) && r.to_multiset() == s.to_multiset()
}

proof fn lemma_bytes_lt_from_asym(a: Seq<u8>, b: Seq<u8>, i: int)
    requires
        0 <= i,
    ensures
        !(bytes_lt_from(a, b, i) && bytes_lt_from(b, a, i)),
        (!bytes_lt_from(a, b, i) && !bytes_lt_from(b, a, i) && i <= a.len() && i <= b.len())
            ==> a.subrange(i, a.len() as int) == b.subrange(i, b.len() as int),
    decreases b.len() - i,
{
    if i < a.len() && i < b.len() && a[i] == b[i] {
        lemma_bytes_lt_from_asym(a, b, i + 1);
        if !bytes_lt_from(a, b, i) && !bytes_lt_from(b, a, i) {
            assert(a.subrange(i, a.len() as int) =~= seq![a[i]] + a.subrange(
                i + 1,
                a.len() as int,
            ));
            assert(b.subrange(i, b.len() as int) =~= seq![b[i]] + b.subrange(
                i + 1,
                b.len() as int,
            ));
        }
    } else if i == a.len() && i == b.len() {
        assert(a.subrange(i, a.len() as int) =~= b.subrange(i, b.len() as int));
    }
}

proof fn lemma_bytes_lt_from_trans(a: Seq<u8>, b: Seq<u8>, c: Seq<u8>, i: int)
    requires
        0 <= i,
        bytes_lt_from(a, b, i),
        bytes_lt_from(b, c, i),
    ensures
        bytes_lt_from(a, c, i),
    decreases c.len() - i,
{
    if i < a.len() && i < b.len() && i < c.len() && a[i] == b[i] && b[i] == c[i] {
        lemma_bytes_lt_from_trans(a, b, c, i + 1);
    }
}

/// The output order is a strict total order: asymmetric, transitive, and
/// two outputs that neither precedes are equal.
pub proof fn lemma_output_order_total(x: (u64, Seq<u8>), y: (u64, Seq<u8>), z: (u64, Seq<u8>))
    ensures
        !(output_lt(x, y) && output_lt(y, x)),
        output_le(x, y) && output_le(y, x) ==> x == y,
        output_lt(x, y) && output_lt(y, z) ==> output_lt(x, z),
        output_le(x, y) || output_le(y, x),
{
    lemma_bytes_lt_from_asym(x.1, y.1, 0);
    if output_lt(x, y) && output_lt(y, z) && x.0 == y.0 && y.0 == z.0 {
        lemma_bytes_lt_from_trans(x.1, y.1, z.1, 0);
    }
    if output_le(x, y) && output_le(y, x) {
        assert(x.1 =~= x.1.subrange(0, x.1.len() as int));
        assert(y.1 =~= y.1.subrange(0, y.1.len() as int));
    }
}

/// Two ordered sequences that hold the same outputs are equal.
pub proof fn lemma_ordered_unique(a: Seq<(u64, Seq<u8>)>, b: Seq<(u64, Seq<u8>)>)
    requires
        is_ordered(a),
        is_ordered(b),
        a.to_multiset() == b.to_multiset(),
    ensures
        a == b,
    decreases a.len(),
{
    if a.len() == 0 {
        assert(b.len() == 0);
        assert(a =~= b);
    } else {
        assert(b.to_multiset().count(a[0]) > 0);
        assert(b.contains(a[0]));
        assert(a.to_multiset().count(b[0]) > 0);
        assert(a.contains(b[0]));
        let k = choose|k: int| 0 <= k < b.len() && b[k] == a[0];
        let m = choose|m: int| 0 <= m < a.len() && a[m] == b[0];
        if k > 0 {
            assert(output_le(b[0], b[k]));
        }
        if m > 0 {
            assert(output_le(a[0], a[m]));
        }
        lemma_output_order_total(a[0], b[0], b[0]);
        let ra = a.remove(0);
        let rb = b.remove(0);
        assert(ra.to_multiset() == a.to_multiset().remove(a[0]));
        assert(rb.to_multiset() == b.to_multiset().remove(b[0]));
        assert(is_ordered(ra)) by {
            assert forall|i: int, j: int| 0 <= i < j < ra.len() implies output_le(
                ra[i],
                ra[j],
            ) by {
                assert(ra[i] == a[i + 1] && ra[j] == a[j + 1]);
            }
        }
        assert(is_ordered(rb)) by {
            assert forall|i: int, j: int| 0 <= i < j < rb.len() implies output_le(
                rb[i],
                rb[j],
            ) by {
                assert(rb[i] == b[i + 1] && rb[j] == b[j + 1]);
            }
        }
        lemma_ordered_unique(ra, rb);
        assert(a =~= seq![a[0]] + ra);
        assert(b =~= seq![b[0]] + rb);
    }
}

/// Ordering does not depend on the order in which outputs were supplied:
/// orderings of two sequences that hold the same outputs are equal.
pub proof fn lemma_order_permutation_invariant(
    s1: Seq<(u64, Seq<u8>)>,
    s2: Seq<(u64, Seq<u8>)>,
    r1: Seq<(u64, Seq<u8>)>,
    r2: Seq<(u64, Seq<u8>)>,
)
    requires
        s1.to_multiset() == s2.to_multiset(),
        is_ordering_of(r1, s1),
        is_ordering_of(r2, s2),
    ensures
        r1 == r2,
{
    lemma_ordered_unique(r1, r2);
}

/// Ordering is idempotent: ordering an already ordered result gives it back.
pub proof fn lemma_order_idempotent(
    s: Seq<(u64, Seq<u8>)>,
    r: Seq<(u64, Seq<u8>)>,
    rr: Seq<(u64, Seq<u8>)>,
)
    requires
        is_ordering_of(r, s),
        is_ordering_of(rr, r),
    ensures
        rr == r,
{
    lemma_ordered_unique(rr, r);
}

/// Whether `a` comes strictly before `b` byte-lexicographically.
pub fn bytes_less(a: &Vec<u8>, b: &Vec<u8>) -> (r: bool)
    ensures
        r == bytes_lt(a@, b@),
{
    let mut i: usize = 0;
    loop
        invariant
            i <= a.len() || i <= b.len(),
            i <= b.len(),
            bytes_lt_from(a@, b@, 0) == bytes_lt_from(a@, b@, i as int),
        decreases b.len() - i,
    {
        if i >= b.len() {
            return false;
        } else if i >= a.len() {
            return true;
        } else if a[i] != b[i] {
            return a[i] < b[i];
        }
        i = i + 1;
    }
}

/// Whether output `x` comes strictly before output `y`.
pub fn output_less(x: &Output, y: &Output) -> (r: bool)
    ensures
        r == output_lt(x@, y@),
{
    if x.value != y.value {
        x.value < y.value
    } else {
        bytes_less(&x.script_pubkey, &y.script_pubkey)
    }
}

/// Sorts outputs by value, then by script bytes.
pub fn order(outputs: Vec<Output>) -> (r: Vec<Output>)
    ensures
        is_ordering_of(outputs_model(r@), outputs_model(outputs@)),
{
    let mut rest = outputs;
    let mut r: Vec<Output> = Vec::new();
    while rest.len() > 0
        invariant
            is_ordered(outputs_model(r@)),
            outputs_model(r@).to_multiset().add(outputs_model(rest@).to_multiset())
                == outputs_model(outputs@).to_multiset(),
        decreases rest.len(),
    {
        let ghost before = rest@;
        let x = rest.pop().unwrap();
        assert(before =~= rest@.push(x));
        assert(outputs_model(before) =~= outputs_model(rest@).push(x@));
        let mut pos: usize = 0;
        while pos < r.len() && !output_less(&x, &r[pos])
            invariant
                pos <= r.len(),
                forall|j: int| 0 <= j < pos ==> output_le(#[trigger] r@[j]@, x@),
            decreases r.len() - pos,
        {
            pos = pos + 1;
        }
        let ghost old_r = outputs_model(r@);
        r.insert(pos, x);
        assert(outputs_model(r@) =~= old_r.insert(pos as int, x@));
        assert(is_ordered(outputs_model(r@))) by {
            let m = outputs_model(r@);
            assert forall|i: int, j: int| 0 <= i < j < m.len() implies output_le(
                #[trigger] m[i],
                #[trigger] m[j],
            ) by {
                if j == pos {
                    assert(m[i] == old_r[i]);
                } else if i == pos {
                    assert(m[j] == old_r[j - 1]);
                    if j - 1 > pos {
                        assert(output_le(old_r[pos as int], old_r[j - 1]));
                    }
                    lemma_output_order_total(x@, old_r[pos as int], old_r[j - 1]);
                    lemma_output_order_total(old_r[j - 1], x@, old_r[pos as int]);
                } else {
                    let oi = if i < pos { i } else { i - 1 };
                    let oj = if j < pos { j } else { j - 1 };
                    assert(m[i] == old_r[oi] && m[j] == old_r[oj]);
                }
            }
        }
    }
    assert(outputs_model(rest@) =~= Seq::<(u64, Seq<u8>)>::empty());
    assert(outputs_model(rest@).to_multiset() =~= Multiset::<(u64, Seq<u8>)>::empty());
    assert(outputs_model(r@).to_multiset().add(Multiset::empty()) =~= outputs_model(
        r@,
    ).to_multiset());
    r
}

} // verus!
