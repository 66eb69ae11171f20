//! Fan-in of one collection round: each host's probe ends in a record or
//! a probe error, and the round keeps exactly the successful records, in
//! arrival order, discarding failures without touching its siblings.

use vstd::prelude::*;
use crate::probe::ProbeError;
use crate::record::CertificateRecord;
use crate::store::{
    lemma_absent_name_preserved, store_inv, upsert_all_model, RecordStore, StoredModel,
};

verus! {

/// The successful records among a round's probe outcomes, in order.
pub open spec fn successes(rs: Seq<Result<CertificateRecord, ProbeError>>) -> Seq<CertificateRecord>
    decreases rs.len(),
{
    if rs.len() == 0 {
        Seq::empty()
    } else {
        let rest = successes(rs.drop_first());
        if rs[0] is Ok {
            seq![rs[0]->Ok_0] + rest
        } else {
            rest
        }
    }
}

/// Appending one more outcome appends its record exactly when it is a
/// success.
proof fn lemma_successes_push(rs: Seq<Result<CertificateRecord, ProbeError>>, r: Result<CertificateRecord, ProbeError>)
    ensures
        successes(rs.push(r)) == if r is Ok {
            successes(rs).push(r->Ok_0)
        } else {
            successes(rs)
        },
    decreases rs.len(),
{
    let p = rs.push(r);
    if rs.len() == 0 {
        assert(p[0] == r);
        assert(p.drop_first() =~= Seq::<Result<CertificateRecord, ProbeError>>::empty());
        assert(successes(p.drop_first()) =~= Seq::<CertificateRecord>::empty());
        assert(successes(rs) =~= Seq::<CertificateRecord>::empty());
        if r is Ok {
            assert(successes(p) =~= seq![r->Ok_0] + Seq::<CertificateRecord>::empty());
            assert(seq![r->Ok_0] + Seq::<CertificateRecord>::empty()
                =~= successes(rs).push(r->Ok_0));
        }
    } else {
        assert(p.drop_first() =~= rs.drop_first().push(r));
        lemma_successes_push(rs.drop_first(), r);
        if r is Ok {
            assert(seq![rs[0]->Ok_0] + successes(rs.drop_first()).push(r->Ok_0)
                =~= (seq![rs[0]->Ok_0] + successes(rs.drop_first())).push(r->Ok_0));
        }
    }
}

/// Collects a round's fresh records: keeps each successful probe's
/// record, in order, and drops each failed probe.
pub fn collect_successes(results: Vec<Result<CertificateRecord, ProbeError>>) -> (out: Vec<CertificateRecord>)
    ensures
        out@ == successes(results@),
{
    let ghost all = results@;
    let mut rest = results;
    let mut out: Vec<CertificateRecord> = Vec::new();
    proof {
        assert(all.take(0) =~= Seq::<Result<CertificateRecord, ProbeError>>::empty());
    }
    while rest.len() > 0
        invariant
            rest@.len() <= all.len(),
            rest@ == all.skip(all.len() - rest@.len()),
            out@ == successes(all.take(all.len() - rest@.len())),
        decreases rest@.len(),
    {
        let ghost k = all.len() - rest@.len();
        let r = rest.remove(0);
        proof {
            assert(rest@ =~= all.skip(k + 1));
            assert(all.take(k + 1) =~= all.take(k).push(all[k]));
            lemma_successes_push(all.take(k), all[k]);
        }
        match r {
            Ok(c) => { out.push(c); },
            Err(_) => {},
        }
    }
    proof {
        assert(all.take(all.len() as int) =~= all);
    }
    out
}

/// Isolation: one host's failure never costs another host its result.
/// Whenever one probe in a round fails and another succeeds, the
/// succeeding probe's record is among the round's collected records.
pub proof fn lemma_probe_isolation(rs: Seq<Result<CertificateRecord, ProbeError>>, a: int, b: int)
    requires
        0 <= a < rs.len(),
        0 <= b < rs.len(),
        rs[a] is Err,
        rs[b] is Ok,
    ensures
        successes(rs).contains(rs[b]->Ok_0),
{
    lemma_success_kept(rs, b);
}

/// Every successful outcome's record is among the collected records.
pub proof fn lemma_success_kept(rs: Seq<Result<CertificateRecord, ProbeError>>, b: int)
    requires
        0 <= b < rs.len(),
        rs[b] is Ok,
    ensures
        successes(rs).contains(rs[b]->Ok_0),
    decreases rs.len(),
{
    if b == 0 {
        assert(successes(rs)[0] == rs[0]->Ok_0);
    } else {
        lemma_success_kept(rs.drop_first(), b - 1);
        let c = rs[b]->Ok_0;
        let i = choose|i: int| 0 <= i < successes(rs.drop_first()).len()
            && successes(rs.drop_first())[i] == c;
        if rs[0] is Ok {
            assert(successes(rs)[i + 1] == c);
        }
    }
}

/// One full round against the store: the fresh records of this round's
/// probe outcomes are upserted in order; failed probes contribute
/// nothing and cost no host its stored record.
pub fn apply_round(store: &mut RecordStore, results: Vec<Result<CertificateRecord, ProbeError>>)
    requires
        old(store).wf(),
        forall|k: int| 0 <= k < results@.len()
            ==> ((#[trigger] results@[k]) matches Ok(c) ==> c.wf()),
    ensures
        final(store).wf(),
        final(store)@ == upsert_all_model(
            old(store)@,
            successes(results@).map_values(|c: CertificateRecord| c@),
        ),
{
    let ghost all = results@;
    let fresh = collect_successes(results);
    proof {
        lemma_successes_wf(all);
    }
    store.upsert_all(fresh);
}

/// When no successful outcome carries a given hostname, no collected
/// record does either.
proof fn lemma_successes_avoid_name(rs: Seq<Result<CertificateRecord, ProbeError>>, n: Seq<char>)
    requires
        forall|k: int| 0 <= k < rs.len()
            ==> ((#[trigger] rs[k]) matches Ok(c) ==> c@.name != n),
    ensures
        forall|k: int| 0 <= k < successes(rs).len()
            ==> (#[trigger] successes(rs)[k])@.name != n,
    decreases rs.len(),
{
    if rs.len() > 0 {
        assert forall|k: int| 0 <= k < rs.drop_first().len()
            implies ((#[trigger] rs.drop_first()[k]) matches Ok(c) ==> c@.name != n) by {
            assert(rs.drop_first()[k] == rs[k + 1]);
        }
        lemma_successes_avoid_name(rs.drop_first(), n);
        assert forall|k: int| 0 <= k < successes(rs).len()
            implies (#[trigger] successes(rs)[k])@.name != n by {
            if rs[0] is Ok {
                if k == 0 {
                    assert(successes(rs)[0] == rs[0]->Ok_0);
                } else {
                    assert(successes(rs)[k] == successes(rs.drop_first())[k - 1]);
                }
            } else {
                assert(successes(rs)[k] == successes(rs.drop_first())[k]);
            }
        }
    }
}

/// Non-loss on failure, at the round boundary: a host whose probe did
/// not succeed in this round (it failed, or was not probed at all)
/// keeps its stored record exactly as it was.
pub proof fn lemma_round_preserves_unprobed(
    v: Seq<StoredModel>,
    rs: Seq<Result<CertificateRecord, ProbeError>>,
    i: int,
)
    requires
        store_inv(v),
        0 <= i < v.len(),
        forall|k: int| 0 <= k < rs.len()
            ==> ((#[trigger] rs[k]) matches Ok(c) ==> c@.name != v[i].rec.name),
    ensures
        upsert_all_model(v, successes(rs).map_values(|c: CertificateRecord| c@)).len() >= v.len(),
        upsert_all_model(v, successes(rs).map_values(|c: CertificateRecord| c@))[i] == v[i],
{
    let ms = successes(rs).map_values(|c: CertificateRecord| c@);
    lemma_successes_avoid_name(rs, v[i].rec.name);
    assert forall|k: int| 0 <= k < ms.len()
        implies (#[trigger] ms[k]).name != v[i].rec.name by {
        assert(ms[k] == successes(rs)[k]@);
    }
    lemma_absent_name_preserved(v, ms, i);
}

/// Records collected from well-formed outcomes are well-formed.
proof fn lemma_successes_wf(rs: Seq<Result<CertificateRecord, ProbeError>>)
    requires
        forall|k: int| 0 <= k < rs.len()
            ==> ((#[trigger] rs[k]) matches Ok(c) ==> c.wf()),
    ensures
        forall|k: int| 0 <= k < successes(rs).len() ==> #[trigger] successes(rs)[k].wf(),
    decreases rs.len(),
{
    if rs.len() > 0 {
        assert forall|k: int| 0 <= k < rs.drop_first().len()
            implies ((#[trigger] rs.drop_first()[k]) matches Ok(c) ==> c.wf()) by {
            assert(rs.drop_first()[k] == rs[k + 1]);
        }
        lemma_successes_wf(rs.drop_first());
        assert forall|k: int| 0 <= k < successes(rs).len()
            implies #[trigger] successes(rs)[k].wf() by {
            if rs[0] is Ok {
                if k == 0 {
                    assert(successes(rs)[0] == rs[0]->Ok_0);
                } else {
                    assert(successes(rs)[k] == successes(rs.drop_first())[k - 1]);
                }
            } else {
                assert(successes(rs)[k] == successes(rs.drop_first())[k]);
            }
        }
    }
}

} // verus!
