//! The last-writer-wins register at the heart of the replication
//! strategy, together with its conflict-resolution order.
//!
//! A write carries a monotonic marker and the identity of the replica
//! that issued it.  An incoming write is accepted exactly when it is
//! later in the order: a strictly greater marker wins, and equal
//! markers are broken by a fixed total order over replica identities,
//! so every replica converges to the same winner whatever the arrival
//! order.

use vstd::prelude::*;

verus! {

/// Strict lexicographic order on replica identities (byte strings).
/// A proper prefix comes before every extension of it.
pub open spec fn lex_lt(a: Seq<u8>, b: Seq<u8>) -> bool
    decreases a.len(),
{
    if b.len() == 0 {
        false
    } else if a.len() == 0 {
        true
    } else if a[0] < b[0] {
        true
    } else if a[0] > b[0] {
        false
    } else {
        lex_lt(a.drop_first(), b.drop_first())
    }
}

/// The lexicographic order is irreflexive.
pub proof fn lemma_lex_irreflexive(a: Seq<u8>)
    ensures
        !lex_lt(a, a),
    decreases a.len(),
{
    if a.len() > 0 {
        lemma_lex_irreflexive(a.drop_first());
    }
}

/// The lexicographic order is total: two distinct identities are
/// ordered one way or the other.
pub proof fn lemma_lex_total(a: Seq<u8>, b: Seq<u8>)
    ensures
        a == b || lex_lt(a, b) || lex_lt(b, a),
    decreases a.len(),
{
    if a.len() == 0 || b.len() == 0 {
        if a.len() == b.len() {
            assert(a =~= b);
        }
    } else {
        if a[0] == b[0] {
            lemma_lex_total(a.drop_first(), b.drop_first());
            if a.drop_first() == b.drop_first() {
                assert(a.drop_first().len() == b.drop_first().len());
                assert(a.len() == b.len());
                assert forall|i: int| 0 <= i < a.len() implies a[i] == b[i] by {
                    if i > 0 {
                        assert(a.drop_first()[i - 1] == b.drop_first()[i - 1]);
                        assert(a[i] == a.drop_first()[i - 1]);
                        assert(b[i] == b.drop_first()[i - 1]);
                    }
                }
                assert(a =~= b);
            }
        }
    }
}

/// The lexicographic order is asymmetric.
pub proof fn lemma_lex_asymmetric(a: Seq<u8>, b: Seq<u8>)
    ensures
        !(lex_lt(a, b) && lex_lt(b, a)),
    decreases a.len(),
{
    if a.len() > 0 && b.len() > 0 && a[0] == b[0] {
        lemma_lex_asymmetric(a.drop_first(), b.drop_first());
    }
}

/// The lexicographic order is transitive.
pub proof fn lemma_lex_transitive(a: Seq<u8>, b: Seq<u8>, c: Seq<u8>)
    ensures
        lex_lt(a, b) && lex_lt(b, c) ==> lex_lt(a, c),
    decreases a.len(),
{
    if a.len() > 0 && b.len() > 0 && c.len() > 0 {
        lemma_lex_transitive(a.drop_first(), b.drop_first(), c.drop_first());
    }
}

/// The mathematical content of a register write: the value written,
/// the logical clock it was written at, and the identity of the
/// replica that wrote it.
#[verifier::ext_equal]
pub struct EntryView {
    /// The value written.
    pub value: Seq<char>,
    /// The logical clock of the write.
    pub marker: int,
    /// The identity of the writing replica.
    pub writer: Seq<u8>,
}

/// Whether the incoming write `inc` beats the current state `cur`:
/// a strictly greater marker always wins, and an equal marker wins
/// exactly when the incoming writer is lexicographically greater.
pub open spec fn wins(inc: EntryView, cur: EntryView) -> bool {
    ||| inc.marker > cur.marker
    ||| (inc.marker == cur.marker && lex_lt(cur.writer, inc.writer))
}

/// The register state after receiving `inc` over `cur`.
pub open spec fn merged(cur: EntryView, inc: EntryView) -> EntryView {
    if wins(inc, cur) {
        inc
    } else {
        cur
    }
}

/// The register state after receiving a whole sequence of writes.
pub open spec fn apply_all(cur: EntryView, s: Seq<EntryView>) -> EntryView
    decreases s.len(),
{
    if s.len() == 0 {
        cur
    } else {
        apply_all(merged(cur, s[0]), s.drop_first())
    }
}

/// Receiving one more write merges it into wherever the pool left
/// the register.
pub proof fn lemma_apply_all_push(cur: EntryView, s: Seq<EntryView>, e: EntryView)
    ensures
        apply_all(cur, s.push(e)) == merged(apply_all(cur, s), e),
    decreases s.len(),
{
    if s.len() == 0 {
        assert(s.push(e)[0] == e);
        assert(s.push(e).drop_first() =~= Seq::<EntryView>::empty());
        assert(apply_all(cur, s.push(e)) == apply_all(merged(cur, e), Seq::<EntryView>::empty()));
    } else {
        assert(s.push(e)[0] == s[0]);
        assert(s.push(e).drop_first() =~= s.drop_first().push(e));
        lemma_apply_all_push(merged(cur, s[0]), s.drop_first(), e);
    }
}

/// Two writes agree when an equal clock and an equal writer carry an
/// equal value.  Each replica uses each marker value at most once, so
/// every pair of writes that can meet in one exchange agrees.
pub open spec fn agrees(a: EntryView, b: EntryView) -> bool {
    (a.marker == b.marker && a.writer == b.writer) ==> a.value == b.value
}

/// Every pair of writes in the pool agrees.
pub open spec fn pool_agrees(s: Seq<EntryView>) -> bool {
    forall|i: int, j: int| 0 <= i < s.len() && 0 <= j < s.len() ==> agrees(#[trigger] s[i], #[trigger] s[j])
}

/// Receiving a write twice changes nothing beyond the first receipt:
/// the merge is idempotent.
pub proof fn lemma_merge_idempotent(e: EntryView)
    ensures
        merged(e, e) == e,
{
    lemma_lex_irreflexive(e.writer);
}

/// Receiving the same write again later also changes nothing.
pub proof fn lemma_merge_absorbs(cur: EntryView, inc: EntryView)
    ensures
        merged(merged(cur, inc), inc) == merged(cur, inc),
{
    lemma_lex_irreflexive(inc.writer);
}

/// The order in which two agreeing writes arrive does not matter:
/// the merge is commutative.
pub proof fn lemma_merge_commutative(a: EntryView, b: EntryView)
    requires
        agrees(a, b),
    ensures
        merged(a, b) == merged(b, a),
{
    lemma_lex_total(a.writer, b.writer);
    lemma_lex_asymmetric(a.writer, b.writer);
}

/// The merge is associative.
pub proof fn lemma_merge_associative(a: EntryView, b: EntryView, c: EntryView)
    ensures
        merged(merged(a, b), c) == merged(a, merged(b, c)),
{
    lemma_lex_total(a.writer, b.writer);
    lemma_lex_total(b.writer, c.writer);
    lemma_lex_total(a.writer, c.writer);
    lemma_lex_asymmetric(a.writer, b.writer);
    lemma_lex_asymmetric(b.writer, c.writer);
    lemma_lex_asymmetric(a.writer, c.writer);
    lemma_lex_transitive(a.writer, b.writer, c.writer);
    lemma_lex_transitive(c.writer, b.writer, a.writer);
    lemma_lex_transitive(b.writer, a.writer, c.writer);
    lemma_lex_transitive(c.writer, a.writer, b.writer);
    lemma_lex_transitive(a.writer, c.writer, b.writer);
    lemma_lex_transitive(b.writer, c.writer, a.writer);
}

/// Applying two agreeing writes in either order leaves the same state.
pub proof fn lemma_merge_exchange(cur: EntryView, a: EntryView, b: EntryView)
    requires
        agrees(a, b),
    ensures
        merged(merged(cur, a), b) == merged(merged(cur, b), a),
{
    lemma_lex_total(a.writer, b.writer);
    lemma_lex_asymmetric(a.writer, b.writer);
    lemma_lex_asymmetric(cur.writer, a.writer);
    lemma_lex_asymmetric(cur.writer, b.writer);
    lemma_lex_transitive(cur.writer, a.writer, b.writer);
    lemma_lex_transitive(cur.writer, b.writer, a.writer);
    lemma_lex_transitive(a.writer, cur.writer, b.writer);
    lemma_lex_transitive(b.writer, cur.writer, a.writer);
    lemma_lex_transitive(a.writer, b.writer, cur.writer);
    lemma_lex_transitive(b.writer, a.writer, cur.writer);
}

/// Pulling any one write of the pool to the front does not change
/// where the register ends up.
proof fn lemma_apply_all_pull(cur: EntryView, s: Seq<EntryView>, i: int)
    requires
        0 <= i < s.len(),
        pool_agrees(s),
    ensures
        apply_all(cur, s) == apply_all(merged(cur, s[i]), s.remove(i)),
    decreases i,
{
    if i == 0 {
        assert(s.remove(0) =~= s.drop_first());
    } else {
        let rest = s.drop_first();
        assert(pool_agrees(rest)) by {
            assert forall|p: int, q: int|
                0 <= p < rest.len() && 0 <= q < rest.len() implies agrees(
                #[trigger] rest[p],
                #[trigger] rest[q],
            ) by {
                assert(rest[p] == s[p + 1]);
                assert(rest[q] == s[q + 1]);
            }
        }
        assert(rest[i - 1] == s[i]);
        lemma_apply_all_pull(merged(cur, s[0]), rest, i - 1);
        lemma_merge_exchange(cur, s[0], s[i]);
        assert(s.remove(i) =~= seq![s[0]] + rest.remove(i - 1));
        assert(s.remove(i).drop_first() =~= rest.remove(i - 1));
        assert(apply_all(merged(cur, s[i]), s.remove(i)) == apply_all(
            merged(merged(cur, s[i]), s[0]),
            rest.remove(i - 1),
        ));
    }
}

/// Convergence: two replicas that have received the same pool of
/// writes — in any order — end with the same register state.
pub proof fn lemma_apply_all_order_independent(cur: EntryView, s1: Seq<EntryView>, s2: Seq<EntryView>)
    requires
        s1.to_multiset() == s2.to_multiset(),
        pool_agrees(s1),
    ensures
        apply_all(cur, s1) == apply_all(cur, s2),
    decreases s1.len(),
{
    broadcast use vstd::seq_lib::group_to_multiset_ensures;

    if s1.len() == 0 {
        assert(s2.to_multiset().len() == 0);
    } else {
        let x = s1[0];
        assert(s1.to_multiset().count(x) > 0) by {
            assert(s1.contains(x));
        }
        assert(s2.contains(x));
        let i = choose|i: int| 0 <= i < s2.len() && s2[i] == x;
        let rest1 = s1.drop_first();
        let rest2 = s2.remove(i);
        assert(rest1 =~= s1.remove(0));
        assert(rest1.to_multiset() == rest2.to_multiset());
        assert(pool_agrees(rest1)) by {
            assert forall|p: int, q: int|
                0 <= p < rest1.len() && 0 <= q < rest1.len() implies agrees(
                #[trigger] rest1[p],
                #[trigger] rest1[q],
            ) by {
                assert(rest1[p] == s1[p + 1]);
                assert(rest1[q] == s1[q + 1]);
            }
        }
        assert(pool_agrees(s2)) by {
            assert forall|p: int, q: int|
                0 <= p < s2.len() && 0 <= q < s2.len() implies agrees(
                #[trigger] s2[p],
                #[trigger] s2[q],
            ) by {
                assert(s2.contains(s2[p]) && s2.contains(s2[q]));
                assert(s2.to_multiset().count(s2[p]) > 0);
                assert(s2.to_multiset().count(s2[q]) > 0);
                assert(s1.contains(s2[p]) && s1.contains(s2[q]));
                let a = choose|a: int| 0 <= a < s1.len() && s1[a] == s2[p];
                let b = choose|b: int| 0 <= b < s1.len() && s1[b] == s2[q];
                assert(agrees(s1[a], s1[b]));
            }
        }
        lemma_apply_all_order_independent(merged(cur, x), rest1, rest2);
        lemma_apply_all_pull(cur, s2, i);
    }
}

/// Decide the strict lexicographic order on two identities.
pub fn lex_less(a: &Vec<u8>, b: &Vec<u8>) -> (r: bool)
    ensures
        r == lex_lt(a@, b@),
{
    let mut i: usize = 0;
    proof {
        assert(a@.subrange(0, a@.len() as int) =~= a@);
        assert(b@.subrange(0, b@.len() as int) =~= b@);
        assert(a@.subrange(0, 0) =~= b@.subrange(0, 0));
    }
    loop
        invariant
            0 <= i <= a.len(),
            i <= b.len(),
            a@.subrange(0, i as int) =~= b@.subrange(0, i as int),
            lex_lt(a@, b@) == lex_lt(a@.subrange(i as int, a@.len() as int), b@.subrange(i as int, b@.len() as int)),
        decreases a.len() - i,
    {
        let ghost sa = a@.subrange(i as int, a@.len() as int);
        let ghost sb = b@.subrange(i as int, b@.len() as int);
        if i >= b.len() {
            assert(sb.len() == 0);
            return false;
        }
        if i >= a.len() {
            assert(sa.len() == 0 && sb.len() > 0);
            return true;
        }
        let x = a[i];
        let y = b[i];
        assert(sa[0] == x && sb[0] == y);
        if x < y {
            return true;
        }
        if x > y {
            return false;
        }
        proof {
            assert(sa.drop_first() =~= a@.subrange(i + 1, a@.len() as int));
            assert(sb.drop_first() =~= b@.subrange(i + 1, b@.len() as int));
            assert(a@.subrange(0, i + 1) =~= b@.subrange(0, i + 1));
        }
        i += 1;
    }
}

/// One register write as held locally and exchanged between replicas.
#[derive(Debug)]
pub struct Entry {
    /// The value written.
    pub value: String,
    /// The logical clock of the write.
    pub marker: i32,
    /// The identity of the writing replica.
    pub writer: Vec<u8>,
}

impl View for Entry {
    type V = EntryView;

    open spec fn view(&self) -> EntryView {
        EntryView { value: self.value@, marker: self.marker as int, writer: self.writer@ }
    }
}

/// The mathematical content of a sequence of writes, in order.
pub open spec fn entry_views(s: Seq<Entry>) -> Seq<EntryView> {
    s.map_values(|e: Entry| e@)
}

/// Copy a replica identity byte for byte.
pub(crate) fn copy_bytes(v: &Vec<u8>) -> (r: Vec<u8>)
    ensures
        r@ == v@,
{
    let mut r: Vec<u8> = Vec::new();
    let mut i: usize = 0;
    while i < v.len()
        invariant
            0 <= i <= v.len(),
            r@ =~= v@.subrange(0, i as int),
        decreases v.len() - i,
    {
        r.push(v[i]);
        i += 1;
    }
    proof {
        assert(v@.subrange(0, v@.len() as int) =~= v@);
    }
    r
}

impl Clone for Entry {
    fn clone(&self) -> (r: Self)
        ensures
            r@ == self@,
    {
        Entry { value: self.value.clone(), marker: self.marker, writer: copy_bytes(&self.writer) }
    }
}

/// Decide whether the incoming write beats the held state, under the
/// marker-then-writer order.
pub fn write_wins(inc: &Entry, cur: &Entry) -> (r: bool)
    ensures
        r == wins(inc@, cur@),
{
    inc.marker > cur.marker || (inc.marker == cur.marker && lex_less(&cur.writer, &inc.writer))
}

/// Receive one write: overwrite the held state exactly when the
/// incoming write is later in the order.
pub fn merge_write(cur: &mut Entry, inc: Entry)
    ensures
        final(cur)@ == merged(old(cur)@, inc@),
{
    if write_wins(&inc, cur) {
        *cur = inc;
    }
}

} // verus!
