//! The assembler: groups decoded transactions by their foreign key and
//! attaches each group to its owning voucher, preserving order, without
//! losing or duplicating a row. A transaction whose key matches no voucher
//! is reported back rather than dropped — and never crashes the call.

use vstd::prelude::*;

use crate::db::Database;
use crate::db::DbError;
use crate::types::Transaction;
use crate::types::Voucher;
use crate::types::VoucherView;

verus! {

/// The transactions owned by the voucher with identifier `id`, in their
/// original relative order.
pub open spec fn matching_of(ts: Seq<Transaction>, id: Option<i64>) -> Seq<Transaction> {
    ts.filter(|t: Transaction| t.fk() == id)
}

/// Whether some voucher in `vs` carries the identifier `k`.
pub open spec fn has_parent(vs: Seq<Voucher>, k: Option<i64>) -> bool {
    exists|j: int| 0 <= j < vs.len() && vs[j].voucher_id == k
}

/// The transactions whose foreign key matches no voucher in `vs`, in
/// their original relative order.
pub open spec fn unmatched_of(ts: Seq<Transaction>, vs: Seq<Voucher>) -> Seq<Transaction> {
    ts.filter(|t: Transaction| !has_parent(vs, t.fk()))
}

/// A voucher after assembly: every field as before, with the matching
/// transactions appended to its sequence.
pub open spec fn attach_one(v: VoucherView, ts: Seq<Transaction>) -> VoucherView {
    VoucherView { transactions: v.transactions + matching_of(ts, v.voucher_id), ..v }
}

proof fn lemma_matching_push(ts: Seq<Transaction>, id: Option<i64>, t: Transaction)
    ensures
        matching_of(ts.push(t), id) == if t.fk() == id {
            matching_of(ts, id).push(t)
        } else {
            matching_of(ts, id)
        },
{
    reveal(Seq::filter);
    assert(ts.push(t).drop_last() =~= ts);
    assert(ts.push(t).last() == t);
}

proof fn lemma_unmatched_push(ts: Seq<Transaction>, vs: Seq<Voucher>, t: Transaction)
    ensures
        unmatched_of(ts.push(t), vs) == if !has_parent(vs, t.fk()) {
            unmatched_of(ts, vs).push(t)
        } else {
            unmatched_of(ts, vs)
        },
{
    reveal(Seq::filter);
    assert(ts.push(t).drop_last() =~= ts);
    assert(ts.push(t).last() == t);
}

proof fn lemma_filter_empty<A>(pred: spec_fn(A) -> bool)
    ensures
        Seq::<A>::empty().filter(pred) == Seq::<A>::empty(),
{
    reveal(Seq::filter);
}

/// How many transactions a voucher sequence attaches in total: the summed
/// sizes of each voucher's matching group.
pub open spec fn total_attached(vs: Seq<Voucher>, ts: Seq<Transaction>) -> int
    decreases vs.len(),
{
    if vs.len() == 0 {
        0
    } else {
        total_attached(vs.drop_last(), ts) + matching_of(ts, vs.last().voucher_id).len()
    }
}

/// Whether no two vouchers share an identifier.
pub open spec fn distinct_ids(vs: Seq<Voucher>) -> bool {
    forall|i: int, j: int| 0 <= i < j < vs.len() ==> vs[i].voucher_id != vs[j].voucher_id
}

proof fn lemma_total_attached_empty(vs: Seq<Voucher>)
    ensures
        total_attached(vs, Seq::empty()) == 0,
    decreases vs.len(),
{
    if vs.len() > 0 {
        lemma_total_attached_empty(vs.drop_last());
        assert(matching_of(Seq::empty(), vs.last().voucher_id).len() == 0) by {
            Seq::<Transaction>::empty().lemma_filter_len(
                |t: Transaction| t.fk() == vs.last().voucher_id,
            );
        }
    }
}

proof fn lemma_has_parent_split(vs: Seq<Voucher>, k: Option<i64>)
    requires
        vs.len() > 0,
    ensures
        has_parent(vs, k) <==> (has_parent(vs.drop_last(), k) || vs.last().voucher_id == k),
{
    if has_parent(vs, k) {
        let j = choose|j: int| 0 <= j < vs.len() && vs[j].voucher_id == k;
        if j < vs.len() - 1 {
            assert(vs.drop_last()[j] == vs[j]);
            assert(has_parent(vs.drop_last(), k));
        }
    }
    if has_parent(vs.drop_last(), k) {
        let j = choose|j: int| 0 <= j < vs.drop_last().len() && vs.drop_last()[j].voucher_id == k;
        assert(vs[j] == vs.drop_last()[j]);
        assert(has_parent(vs, k));
    }
    if vs.last().voucher_id == k {
        assert(vs[vs.len() - 1].voucher_id == k);
        assert(has_parent(vs, k));
    }
}

proof fn lemma_total_push(vs: Seq<Voucher>, ts: Seq<Transaction>, c: Transaction)
    requires
        distinct_ids(vs),
    ensures
        total_attached(vs, ts.push(c)) == total_attached(vs, ts) + (if has_parent(vs, c.fk()) {
            1int
        } else {
            0int
        }),
    decreases vs.len(),
{
    if vs.len() == 0 {
        assert(!has_parent(vs, c.fk()));
    } else {
        let vs0 = vs.drop_last();
        let lastid = vs.last().voucher_id;
        assert(distinct_ids(vs0)) by {
            assert forall|i: int, j: int| 0 <= i < j < vs0.len() implies vs0[i].voucher_id
                != vs0[j].voucher_id by {
                assert(vs0[i] == vs[i]);
                assert(vs0[j] == vs[j]);
            }
        }
        lemma_total_push(vs0, ts, c);
        lemma_matching_push(ts, lastid, c);
        lemma_has_parent_split(vs, c.fk());
        if c.fk() == lastid {
            if has_parent(vs0, c.fk()) {
                let j = choose|j: int| 0 <= j < vs0.len() && vs0[j].voucher_id == c.fk();
                assert(vs[j] == vs0[j]);
                assert(vs[j].voucher_id == vs[vs.len() - 1].voucher_id);
                assert(false);
            }
        }
    }
}

/// Completeness of the assembly: when no two vouchers share an
/// identifier, no transaction is lost and none is counted twice — the
/// total number of transactions attached across all vouchers, plus the
/// number whose key matches no voucher, equals the number decoded.
pub proof fn lemma_attach_complete(vs: Seq<Voucher>, ts: Seq<Transaction>)
    requires
        distinct_ids(vs),
    ensures
        total_attached(vs, ts) + unmatched_of(ts, vs).len() == ts.len(),
    decreases ts.len(),
{
    if ts.len() == 0 {
        assert(ts =~= Seq::<Transaction>::empty());
        lemma_total_attached_empty(vs);
        assert(unmatched_of(ts, vs).len() == 0) by {
            ts.lemma_filter_len(|t: Transaction| !has_parent(vs, t.fk()));
        }
    } else {
        let ts0 = ts.drop_last();
        let c = ts.last();
        assert(ts0.push(c) =~= ts);
        lemma_attach_complete(vs, ts0);
        lemma_total_push(vs, ts0, c);
        lemma_unmatched_push(ts0, vs, c);
    }
}

/// Whether two optional identifiers are the same.
fn opt_i64_eq(a: Option<i64>, b: Option<i64>) -> (r: bool)
    ensures
        r == (a == b),
{
    match (a, b) {
        (None, None) => true,
        (Some(x), Some(y)) => x == y,
        _ => false,
    }
}

/// Whether some voucher carries the identifier `k`.
fn has_parent_exec(vouchers: &Vec<Voucher>, k: Option<i64>) -> (r: bool)
    ensures
        r == has_parent(vouchers@, k),
{
    let n = vouchers.len();
    for i in 0..n
        invariant
            n == vouchers@.len(),
            forall|j: int| 0 <= j < i ==> vouchers@[j].voucher_id != k,
    {
        if opt_i64_eq(vouchers[i].voucher_id, k) {
            return true;
        }
    }
    false
}

/// Attaches to each voucher, in voucher order, exactly the transactions
/// whose foreign key equals that voucher's identifier, in their original
/// relative order — no duplication, no cross-voucher leakage. The
/// transactions whose key matches no voucher come back separately, in
/// order, instead of being dropped or aborting the call.
pub fn attach_transactions(vouchers: Vec<Voucher>, transactions: &Vec<Transaction>) -> (r: (
    Vec<Voucher>,
    Vec<Transaction>,
))
    ensures
        r.0@.len() == vouchers@.len(),
        forall|i: int|
            0 <= i < vouchers@.len() ==> r.0@[i]@ == attach_one(vouchers@[i]@, transactions@),
        r.1@ == unmatched_of(transactions@, vouchers@),
{
    let ghost orig = vouchers@;
    let m = transactions.len();

    let mut orphans: Vec<Transaction> = Vec::new();
    proof {
        assert(transactions@.take(0) =~= Seq::<Transaction>::empty());
        lemma_filter_empty(|t: Transaction| !has_parent(orig, t.fk()));
        assert(orphans@ =~= unmatched_of(transactions@.take(0), orig));
    }
    for j in 0..m
        invariant
            m == transactions@.len(),
            orig == vouchers@,
            orphans@ == unmatched_of(transactions@.take(j as int), orig),
    {
        let t = transactions[j];
        if !has_parent_exec(&vouchers, t.data().voucher_id) {
            orphans.push(t);
        }
        proof {
            assert(transactions@.take(j + 1) =~= transactions@.take(j as int).push(
                transactions@[j as int],
            ));
            lemma_unmatched_push(transactions@.take(j as int), orig, transactions@[j as int]);
        }
    }
    proof {
        assert(transactions@.take(m as int) =~= transactions@);
    }

    let mut vouchers = vouchers;
    let mut out: Vec<Voucher> = Vec::new();
    while vouchers.len() > 0
        invariant
            m == transactions@.len(),
            out@.len() + vouchers@.len() == orig.len(),
            vouchers@ == orig.skip(out@.len() as int),
            forall|i: int|
                0 <= i < out@.len() ==> out@[i]@ == attach_one(orig[i]@, transactions@),
        decreases vouchers.len(),
    {
        let ghost k = out@.len() as int;
        let mut v = vouchers.remove(0);
        proof {
            assert(orig.skip(k)[0] == orig[k]);
            assert(orig.skip(k).remove(0) =~= orig.skip(k + 1));
        }
        let vid = v.voucher_id;
        let ghost base = v.transactions@;
        let mut matched: Vec<Transaction> = Vec::new();
        proof {
            assert(transactions@.take(0) =~= Seq::<Transaction>::empty());
            lemma_filter_empty(|t: Transaction| t.fk() == vid);
            assert(matched@ =~= matching_of(transactions@.take(0), vid));
        }
        for j in 0..m
            invariant
                m == transactions@.len(),
                vid == v.voucher_id,
                matched@ == matching_of(transactions@.take(j as int), vid),
        {
            let t = transactions[j];
            if opt_i64_eq(t.data().voucher_id, vid) {
                matched.push(t);
            }
            proof {
                assert(transactions@.take(j + 1) =~= transactions@.take(j as int).push(
                    transactions@[j as int],
                ));
                lemma_matching_push(transactions@.take(j as int), vid, transactions@[j as int]);
            }
        }
        proof {
            assert(transactions@.take(m as int) =~= transactions@);
        }
        v.transactions.append(&mut matched);
        proof {
            assert(v@ =~= attach_one(orig[k]@, transactions@));
        }
        out.push(v);
    }
    proof {
        assert(out@.len() == orig.len());
    }
    (out, orphans)
}

/// The nested result handed to the caller: the vouchers in query order,
/// each with its transactions attached, and the transactions that
/// matched no voucher, reported rather than silently dropped.
pub struct Workbook {
    pub vouchers: Vec<Voucher>,
    pub unmatched: Vec<Transaction>,
}

/// Runs the two read queries, decodes both flat result sets, and
/// assembles the nested report: whatever rows the store returned, the
/// vouchers come back in query order with exactly their own transactions
/// attached, and every transaction is either attached to its owning
/// voucher or reported as unmatched.
pub fn get_workbook(db: &Database, vouchers_query: &str, transactions_query: &str) -> (r: Result<
    Workbook,
    DbError,
>)
    ensures
        (match r {
            Ok(wb) => exists|vs: Seq<Voucher>, ts: Seq<Transaction>|
                {
                    &&& wb.vouchers@.len() == vs.len()
                    &&& (forall|i: int| 0 <= i < vs.len() ==> wb.vouchers@[i]@ == attach_one(
                        vs[i]@,
                        ts,
                    ))
                    &&& wb.unmatched@ == unmatched_of(ts, vs)
                },
            Err(_) => true,
        }),
{
    let vouchers: Vec<Voucher> = match db.select_all(vouchers_query) {
        Ok(v) => v,
        Err(e) => {
            return Err(e);
        },
    };
    let transactions: Vec<Transaction> = match db.select_all(transactions_query) {
        Ok(t) => t,
        Err(e) => {
            return Err(e);
        },
    };
    let ghost vs = vouchers@;
    let ghost ts = transactions@;
    let (vouchers, orphans) = attach_transactions(vouchers, &transactions);
    let wb = Workbook { vouchers, unmatched: orphans };
    proof {
        assert({
            &&& wb.vouchers@.len() == vs.len()
            &&& (forall|i: int| 0 <= i < vs.len() ==> wb.vouchers@[i]@ == attach_one(vs[i]@, ts))
            &&& wb.unmatched@ == unmatched_of(ts, vs)
        });
    }
    Ok(wb)
}

} // verus!
