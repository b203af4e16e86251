//! The learner's saved-word ledger: entries in insertion order, each under an
//! identifier that the ledger mints itself.
use vstd::prelude::*;

verus! {

/// A word and its translation, as the learner saves it.
#[derive(Clone, Debug)]
pub struct VocabularyInfo {
    pub word: String,
    pub translation: String,
}

/// One saved word under the identifier the ledger gave it.
#[derive(Clone, Debug)]
pub struct VocabularyEntry {
    pub id: u64,
    pub info: VocabularyInfo,
}

impl VocabularyInfo {
    /// A copy of the pair.
    pub fn duplicate(&self) -> (r: VocabularyInfo)
        ensures
            r == *self,
    {
        VocabularyInfo { word: self.word.clone(), translation: self.translation.clone() }
    }
}

impl VocabularyEntry {
    /// A copy of the entry.
    pub fn duplicate(&self) -> (r: VocabularyEntry)
        ensures
            r == *self,
    {
        VocabularyEntry { id: self.id, info: self.info.duplicate() }
    }
}

/// Identifiers strictly increase along the list, so no two entries share one
/// and the last entry holds the largest.
pub open spec fn ids_increasing(s: Seq<VocabularyEntry>) -> bool {
    forall|a: int, b: int| 0 <= a < b < s.len() ==> s[a].id < s[b].id
}

/// The identifier the next insertion receives: one past the largest held
/// identifier, or zero when nothing is held.
pub open spec fn next_id(s: Seq<VocabularyEntry>) -> int {
    if s.len() == 0 {
        0
    } else {
        s.last().id + 1
    }
}

/// The list after an insertion of `info`.
pub open spec fn added(s: Seq<VocabularyEntry>, info: VocabularyInfo) -> Seq<VocabularyEntry> {
    s.push(VocabularyEntry { id: next_id(s) as u64, info })
}

/// The list after a removal of `id`: every other entry, in the same order.
pub open spec fn removed(s: Seq<VocabularyEntry>, id: u64) -> Seq<VocabularyEntry> {
    s.filter(|e: VocabularyEntry| e.id != id)
}

/// Removing an identifier that no entry holds leaves the list as it is.
pub proof fn lemma_remove_absent(s: Seq<VocabularyEntry>, id: u64)
    requires
        forall|k: int| 0 <= k < s.len() ==> s[k].id != id,
    ensures
        removed(s, id) == s,
    decreases s.len(),
{
    if s.len() > 0 {
        let init = s.drop_last();
        lemma_remove_absent(init, id);
        init.lemma_filter_push(s.last(), |e: VocabularyEntry| e.id != id);
        assert(init.push(s.last()) == s);
    }
}

/// Successive insertions hand out strictly increasing identifiers: the
/// identifier an insertion returns exceeds every identifier already held, the
/// list keeps its invariant, and the following insertion gets a larger one.
pub proof fn lemma_add_ids_increase(s: Seq<VocabularyEntry>, info: VocabularyInfo)
    requires
        ids_increasing(s),
        next_id(s) <= u64::MAX,
    ensures
        ids_increasing(added(s, info)),
        forall|k: int| 0 <= k < s.len() ==> s[k].id < next_id(s),
        next_id(added(s, info)) == next_id(s) + 1,
{
}

/// The list after inserting each of `infos` in turn.
pub open spec fn added_all(s: Seq<VocabularyEntry>, infos: Seq<VocabularyInfo>) -> Seq<
    VocabularyEntry,
>
    decreases infos.len(),
{
    if infos.len() == 0 {
        s
    } else {
        added(added_all(s, infos.drop_last()), infos.last())
    }
}

/// Any run of insertions hands out the identifiers `next_id(s)`,
/// `next_id(s) + 1`, ... in turn, so they strictly increase and are distinct;
/// the entries already held are left as they were.
pub proof fn lemma_successive_adds(s: Seq<VocabularyEntry>, infos: Seq<VocabularyInfo>)
    requires
        ids_increasing(s),
        next_id(s) + infos.len() <= u64::MAX + 1,
    ensures
        added_all(s, infos).len() == s.len() + infos.len(),
        ids_increasing(added_all(s, infos)),
        forall|k: int| 0 <= k < s.len() ==> #[trigger] added_all(s, infos)[k] == s[k],
        forall|k: int|
            0 <= k < infos.len() ==> (#[trigger] added_all(s, infos)[s.len() + k]).id == next_id(s)
                + k && added_all(s, infos)[s.len() + k].info == infos[k],
    decreases infos.len(),
{
    if infos.len() > 0 {
        let init = infos.drop_last();
        lemma_successive_adds(s, init);
        let p = added_all(s, init);
        if init.len() > 0 {
            let k = init.len() - 1;
            assert(p[s.len() + k].id == next_id(s) + k);
        }
        assert(next_id(p) == next_id(s) + init.len());
        let q = added_all(s, infos);
        assert(q == added(p, infos.last()));
        assert forall|k: int| 0 <= k < infos.len() implies (#[trigger] q[s.len() + k]).id
            == next_id(s) + k && q[s.len() + k].info == infos[k] by {
            if k < init.len() {
                assert(q[s.len() + k] == p[s.len() + k]);
            }
        }
    }
}

/// An insertion followed by the removal of the identifier it returned gives
/// back the list as it was before the insertion.
pub proof fn lemma_add_then_remove(s: Seq<VocabularyEntry>, info: VocabularyInfo)
    requires
        ids_increasing(s),
        next_id(s) <= u64::MAX,
    ensures
        removed(added(s, info), next_id(s) as u64) == s,
{
    let id = next_id(s) as u64;
    lemma_remove_absent(s, id);
    s.lemma_filter_push(VocabularyEntry { id, info }, |e: VocabularyEntry| e.id != id);
}

/// An ordered set of saved words keyed by identifiers that strictly increase.
pub struct VocabularyLedger {
    entries: Vec<VocabularyEntry>,
}

impl View for VocabularyLedger {
    type V = Seq<VocabularyEntry>;

    closed spec fn view(&self) -> Seq<VocabularyEntry> {
        self.entries@
    }
}

impl VocabularyLedger {
    /// The ledger's invariant.
    pub open spec fn wf(&self) -> bool {
        ids_increasing(self@)
    }

    /// Whether one more identifier can be minted within `u64`.
    pub open spec fn has_free_id(&self) -> bool {
        next_id(self@) <= u64::MAX
    }

    /// An empty ledger.
    pub fn new() -> (r: VocabularyLedger)
        ensures
            r.wf(),
            r@ == Seq::<VocabularyEntry>::empty(),
    {
        VocabularyLedger { entries: Vec::new() }
    }

    /// Tells whether `add` may be called.
    pub fn can_add(&self) -> (r: bool)
        ensures
            r == self.has_free_id(),
    {
        let n = self.entries.len();
        n == 0 || self.entries[n - 1].id < u64::MAX
    }

    /// Appends `info` under a fresh identifier and returns that identifier.
    pub fn add(&mut self, info: VocabularyInfo) -> (r: u64)
        requires
            old(self).wf(),
            old(self).has_free_id(),
        ensures
            final(self).wf(),
            r == next_id(old(self)@),
            final(self)@ == added(old(self)@, info),
            forall|k: int| 0 <= k < old(self)@.len() ==> old(self)@[k].id < r,
    {
        let n = self.entries.len();
        let id: u64 = if n == 0 {
            0
        } else {
            self.entries[n - 1].id + 1
        };
        self.entries.push(VocabularyEntry { id, info });
        id
    }

    /// Deletes the entry with identifier `id`, if one is held; the others keep
    /// their identifiers and their order.
    pub fn remove(&mut self, id: u64)
        requires
            old(self).wf(),
        ensures
            final(self).wf(),
            final(self)@ == removed(old(self)@, id),
    {
        let ghost s = self@;
        let mut kept: Vec<VocabularyEntry> = Vec::new();
        let n = self.entries.len();
        let mut i: usize = 0;
        while i < n
            invariant
                n == s.len(),
                s == self.entries@,
                ids_increasing(s),
                0 <= i <= n,
                kept@ == removed(s.subrange(0, i as int), id),
                ids_increasing(kept@),
                i < n ==> forall|k: int| 0 <= k < kept@.len() ==> kept@[k].id < s[i as int].id,
            decreases n - i,
        {
            proof {
                assert(s.subrange(0, i + 1) == s.subrange(0, i as int).push(s[i as int]));
                s.subrange(0, i as int).lemma_filter_push(
                    s[i as int],
                    |e: VocabularyEntry| e.id != id,
                );
            }
            if self.entries[i].id != id {
                kept.push(self.entries[i].duplicate());
            }
            i += 1;
        }
        proof {
            assert(s.subrange(0, n as int) == s);
        }
        self.entries = kept;
    }

    /// The saved words, oldest first.
    pub fn list(&self) -> (r: &Vec<VocabularyEntry>)
        ensures
            r@ == self@,
    {
        &self.entries
    }
}

} // verus!
