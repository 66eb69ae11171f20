//! The record store: a durable mapping from hostname to the latest known
//! certificate record, with idempotent upsert keyed by the unique name.

use vstd::prelude::*;
use crate::record::{CertificateRecord, RecModel};
use crate::timestamp::UtcInstant;

verus! {

/// Unrecoverable persistence failure at the durable-storage edge.
/// Fatal only to the write of that round's batch: records already
/// committed stand, and the next round retries from scratch.
#[derive(Clone, Copy, Debug, PartialEq, Eq, Structural)]
pub struct StorageError;

/// A stored certificate record: the record's content plus the surrogate
/// identifier the store assigned on first insertion.
pub struct StoredRecord {
    /// Surrogate identifier: assigned on insertion, never changed.
    pub id: usize,
    pub name: String,
    pub valid_from: UtcInstant,
    pub valid_to: UtcInstant,
    pub updated: UtcInstant,
}

/// The mathematical content of a stored record.
pub ghost struct StoredModel {
    pub id: int,
    pub rec: RecModel,
}

impl View for StoredRecord {
    type V = StoredModel;

    open spec fn view(&self) -> StoredModel {
        StoredModel {
            id: self.id as int,
            rec: RecModel {
                name: self.name@,
                valid_from: self.valid_from,
                valid_to: self.valid_to,
                updated: self.updated,
            },
        }
    }
}

/// The store's structural invariant: hostnames are unique, and each
/// record's surrogate id is its position, so ids are unique and an
/// existing record's id never changes.
pub open spec fn store_inv(v: Seq<StoredModel>) -> bool {
    &&& forall|i: int, j: int| 0 <= i < j < v.len() ==> v[i].rec.name != v[j].rec.name
    &&& forall|i: int| 0 <= i < v.len() ==> #[trigger] v[i].id == i
}

/// Every stored record is well-formed (in particular, its validity
/// window is increasing).
pub open spec fn store_recs_wf(v: Seq<StoredModel>) -> bool {
    forall|i: int| 0 <= i < v.len() ==> #[trigger] v[i].rec.wf()
}

/// Whether some stored record carries this hostname.
pub open spec fn has_name(v: Seq<StoredModel>, name: Seq<char>) -> bool {
    exists|i: int| 0 <= i < v.len() && v[i].rec.name == name
}

/// The position of the record carrying this hostname; meaningful when
/// `has_name` holds and names are unique.
pub open spec fn name_index(v: Seq<StoredModel>, name: Seq<char>) -> int {
    choose|i: int| 0 <= i < v.len() && v[i].rec.name == name
}

/// The stored record carrying this hostname.
pub open spec fn lookup(v: Seq<StoredModel>, name: Seq<char>) -> StoredModel {
    v[name_index(v, name)]
}

/// One atomic insert-or-update: an existing record for the name keeps
/// its position and id and takes the incoming content; a new name is
/// appended with a fresh id.
pub open spec fn upsert_model(v: Seq<StoredModel>, r: RecModel) -> Seq<StoredModel> {
    if has_name(v, r.name) {
        let i = name_index(v, r.name);
        v.update(i, StoredModel { id: v[i].id, rec: r })
    } else {
        v.push(StoredModel { id: v.len() as int, rec: r })
    }
}

/// A batch of upserts, applied front to back.
pub open spec fn upsert_all_model(v: Seq<StoredModel>, rs: Seq<RecModel>) -> Seq<StoredModel>
    decreases rs.len(),
{
    if rs.len() == 0 {
        v
    } else {
        upsert_all_model(upsert_model(v, rs[0]), rs.drop_first())
    }
}

/// Under unique names, any position carrying a name is the position
/// `name_index` denotes.
pub proof fn lemma_name_index(v: Seq<StoredModel>, name: Seq<char>, i: int)
    requires
        store_inv(v),
        0 <= i < v.len(),
        v[i].rec.name == name,
    ensures
        has_name(v, name),
        name_index(v, name) == i,
{
    assert(has_name(v, name));
    let j = name_index(v, name);
    assert(0 <= j < v.len() && v[j].rec.name == name);
}

/// An upsert preserves the store's invariants, stores exactly the
/// incoming content under its name, keeps the id of an existing record
/// and assigns the next fresh id otherwise, and touches no other name.
pub proof fn lemma_upsert_model(v: Seq<StoredModel>, r: RecModel)
    requires
        store_inv(v),
    ensures
        store_inv(upsert_model(v, r)),
        store_recs_wf(v) && r.wf() ==> store_recs_wf(upsert_model(v, r)),
        has_name(upsert_model(v, r), r.name),
        lookup(upsert_model(v, r), r.name).rec == r,
        lookup(upsert_model(v, r), r.name).id == if has_name(v, r.name) {
            lookup(v, r.name).id
        } else {
            v.len() as int
        },
        upsert_model(v, r).len() == if has_name(v, r.name) { v.len() } else { v.len() + 1 },
        forall|k: int| 0 <= k < v.len() && v[k].rec.name != r.name
            ==> #[trigger] upsert_model(v, r)[k] == v[k],
{
    let u = upsert_model(v, r);
    if has_name(v, r.name) {
        let i = name_index(v, r.name);
        assert(0 <= i < v.len() && v[i].rec.name == r.name);
        assert(store_inv(u));
        lemma_name_index(u, r.name, i);
    } else {
        assert(forall|k: int| 0 <= k < v.len() ==> v[k].rec.name != r.name);
        assert(store_inv(u));
        lemma_name_index(u, r.name, v.len() as int);
    }
}

/// A batch upsert preserves the store's invariants. In particular no
/// sequence of rounds can ever leave two records with the same hostname.
pub proof fn lemma_upsert_all_model_inv(v: Seq<StoredModel>, rs: Seq<RecModel>)
    requires
        store_inv(v),
    ensures
        store_inv(upsert_all_model(v, rs)),
        store_recs_wf(v) && (forall|k: int| 0 <= k < rs.len() ==> #[trigger] rs[k].wf())
            ==> store_recs_wf(upsert_all_model(v, rs)),
        upsert_all_model(v, rs).len() >= v.len(),
    decreases rs.len(),
{
    if rs.len() > 0 {
        lemma_upsert_model(v, rs[0]);
        lemma_upsert_all_model_inv(upsert_model(v, rs[0]), rs.drop_first());
    }
}

/// Idempotence: upserting the same record content twice is the same as
/// upserting it once; exactly one record carries the name afterwards,
/// its content is the (second) write's values, and its id is the id the
/// name had before the first write, when it had one.
pub proof fn lemma_upsert_idempotent(v: Seq<StoredModel>, r: RecModel)
    requires
        store_inv(v),
    ensures
        upsert_model(upsert_model(v, r), r) == upsert_model(v, r),
        has_name(upsert_model(upsert_model(v, r), r), r.name),
        lookup(upsert_model(upsert_model(v, r), r), r.name).rec == r,
        has_name(v, r.name) ==> lookup(upsert_model(upsert_model(v, r), r), r.name).id
            == lookup(v, r.name).id,
        forall|i: int, j: int|
            0 <= i < upsert_model(upsert_model(v, r), r).len()
                && 0 <= j < upsert_model(upsert_model(v, r), r).len()
                && #[trigger] upsert_model(upsert_model(v, r), r)[i].rec.name == r.name
                && #[trigger] upsert_model(upsert_model(v, r), r)[j].rec.name == r.name
            ==> i == j,
{
    let u1 = upsert_model(v, r);
    lemma_upsert_model(v, r);
    lemma_upsert_model(u1, r);
    let i = name_index(u1, r.name);
    assert(0 <= i < u1.len() && u1[i].rec.name == r.name);
    assert(upsert_model(u1, r) =~= u1.update(i, StoredModel { id: u1[i].id, rec: r }));
    assert(u1.update(i, StoredModel { id: u1[i].id, rec: r }) =~= u1);
}

/// Non-loss on failure: a batch that carries no record for a host leaves
/// that host's stored record exactly as it was.
pub proof fn lemma_absent_name_preserved(v: Seq<StoredModel>, rs: Seq<RecModel>, i: int)
    requires
        store_inv(v),
        0 <= i < v.len(),
        forall|k: int| 0 <= k < rs.len() ==> #[trigger] rs[k].name != v[i].rec.name,
    ensures
        upsert_all_model(v, rs).len() >= v.len(),
        upsert_all_model(v, rs)[i] == v[i],
    decreases rs.len(),
{
    if rs.len() > 0 {
        let u = upsert_model(v, rs[0]);
        lemma_upsert_model(v, rs[0]);
        assert(u[i] == v[i]);
        lemma_absent_name_preserved(u, rs.drop_first(), i);
    }
}

/// The record store: hostname-keyed latest known certificate records.
pub struct RecordStore {
    records: Vec<StoredRecord>,
}

impl View for RecordStore {
    type V = Seq<StoredModel>;

    closed spec fn view(&self) -> Seq<StoredModel> {
        self.records@.map_values(|r: StoredRecord| r@)
    }
}

impl RecordStore {
    /// Well-formed store: unique names, positional ids, well-formed records.
    pub open spec fn wf(self) -> bool {
        store_inv(self@) && store_recs_wf(self@)
    }

    /// An empty store.
    pub fn new() -> (s: RecordStore)
        ensures
            s.wf(),
            s@ =~= Seq::<StoredModel>::empty(),
    {
        RecordStore { records: Vec::new() }
    }

    /// Stores one record: overwrites the content (but not the id) of the
    /// record with the same name if there is one, else inserts the record
    /// with a fresh id.
    pub fn upsert(&mut self, rec: CertificateRecord)
        requires
            old(self).wf(),
            rec.wf(),
        ensures
            final(self).wf(),
            final(self)@ == upsert_model(old(self)@, rec@),
    {
        let ghost v0 = self@;
        let ghost r = rec@;
        let n = self.records.len();
        let mut i: usize = 0;
        while i < n
            invariant
                n == self.records.len(),
                i <= n,
                self@ == v0,
                self.wf(),
                v0 == old(self)@,
                r == rec@,
                rec.wf(),
                forall|k: int| 0 <= k < i ==> v0[k].rec.name != r.name,
            decreases n - i,
        {
            if self.records[i].name == rec.name {
                proof {
                    lemma_name_index(v0, r.name, i as int);
                    lemma_upsert_model(v0, r);
                }
                let id = self.records[i].id;
                self.records[i] = StoredRecord {
                    id,
                    name: rec.name,
                    valid_from: rec.valid_from,
                    valid_to: rec.valid_to,
                    updated: rec.updated,
                };
                proof {
                    assert(self@ =~= upsert_model(v0, r));
                }
                return;
            }
            i += 1;
        }
        proof {
            assert(!has_name(v0, r.name));
            lemma_upsert_model(v0, r);
        }
        let id = self.records.len();
        self.records.push(StoredRecord {
            id,
            name: rec.name,
            valid_from: rec.valid_from,
            valid_to: rec.valid_to,
            updated: rec.updated,
        });
        proof {
            assert(self@ =~= upsert_model(v0, r));
        }
    }

    /// Stores a whole round's batch, front to back, each record with the
    /// atomic insert-or-update semantics of `upsert`.
    pub fn upsert_all(&mut self, recs: Vec<CertificateRecord>)
        requires
            old(self).wf(),
            forall|k: int| 0 <= k < recs@.len() ==> #[trigger] recs@[k].wf(),
        ensures
            final(self).wf(),
            final(self)@ == upsert_all_model(old(self)@, recs@.map_values(|c: CertificateRecord| c@)),
    {
        let ghost v0 = self@;
        let ghost ms = recs@.map_values(|c: CertificateRecord| c@);
        let mut rest = recs;
        while rest.len() > 0
            invariant
                self.wf(),
                forall|k: int| 0 <= k < rest@.len() ==> #[trigger] rest@[k].wf(),
                upsert_all_model(self@, rest@.map_values(|c: CertificateRecord| c@))
                    == upsert_all_model(v0, ms),
            decreases rest@.len(),
        {
            let ghost pre = rest@.map_values(|c: CertificateRecord| c@);
            let c = rest.remove(0);
            proof {
                assert(rest@.map_values(|c: CertificateRecord| c@) =~= pre.drop_first());
            }
            self.upsert(c);
        }
        proof {
            assert(rest@.map_values(|c: CertificateRecord| c@) =~= Seq::<RecModel>::empty());
        }
    }

    /// Every stored record, as certificate records for the query surface.
    /// No two returned records carry the same hostname.
    pub fn list_all(&self) -> (out: Vec<CertificateRecord>)
        requires
            self.wf(),
        ensures
            out@.len() == self@.len(),
            forall|i: int| 0 <= i < self@.len() ==> #[trigger] out@[i]@ == self@[i].rec,
            forall|i: int, j: int| 0 <= i < j < out@.len() ==> out@[i]@.name != out@[j]@.name,
    {
        let mut out: Vec<CertificateRecord> = Vec::new();
        let n = self.records.len();
        let mut i: usize = 0;
        while i < n
            invariant
                n == self.records.len(),
                i <= n,
                self.wf(),
                out@.len() == i,
                forall|k: int| 0 <= k < i ==> #[trigger] out@[k]@ == self@[k].rec,
            decreases n - i,
        {
            let r = &self.records[i];
            out.push(CertificateRecord {
                name: r.name.clone(),
                valid_from: r.valid_from,
                valid_to: r.valid_to,
                updated: r.updated,
            });
            i += 1;
        }
        out
    }

    /// How many records the store holds.
    pub fn len(&self) -> (n: usize)
        ensures
            n == self@.len(),
    {
        self.records.len()
    }
}

} // verus!
