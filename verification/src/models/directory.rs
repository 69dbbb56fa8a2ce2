//! The directory of status records a node has collected.

use vstd::prelude::*;
use crate::models::peer::{Peer, PeerView};

verus! {

/// Whether no two of `records` carry the same identifier.
pub open spec fn distinct_ids(records: Seq<PeerView>) -> bool {
    forall|i: int, j: int|
        0 <= i < j < records.len() ==> (#[trigger] records[i]).id != (#[trigger] records[j]).id
}

/// Whether `records` holds a record for `id`.
pub open spec fn names(records: Seq<PeerView>, id: Seq<char>) -> bool {
    exists|i: int| 0 <= i < records.len() && (#[trigger] records[i]).id == id
}

/// The mapping that `records` stands for: each record under its own identifier.
pub open spec fn directory_of(records: Seq<PeerView>) -> Map<Seq<char>, PeerView> {
    Map::new(
        |id: Seq<char>| names(records, id),
        |id: Seq<char>|
            records[choose|i: int| 0 <= i < records.len() && (#[trigger] records[i]).id == id],
    )
}

/// Whether `records` lists the entries of `directory`, each exactly once.
pub open spec fn lists_exactly(
    records: Seq<PeerView>,
    directory: Map<Seq<char>, PeerView>,
) -> bool {
    &&& distinct_ids(records)
    &&& forall|i: int|
        0 <= i < records.len() ==> directory.contains_key((#[trigger] records[i]).id)
            && directory[records[i].id] == records[i]
    &&& forall|id: Seq<char>| #[trigger] directory.contains_key(id) ==> names(records, id)
}

/// The views of a sequence of records.
pub open spec fn views_of(peers: Seq<Peer>) -> Seq<PeerView> {
    Seq::new(peers.len(), |i: int| peers[i]@)
}

/// Records with distinct identifiers list exactly the mapping they stand for.
pub proof fn lemma_directory_of_lists(records: Seq<PeerView>)
    requires
        distinct_ids(records),
    ensures
        lists_exactly(records, directory_of(records)),
{
    let directory = directory_of(records);
    assert forall|i: int| 0 <= i < records.len() implies directory.contains_key(
        (#[trigger] records[i]).id,
    ) && directory[records[i].id] == records[i] by {
        let id = records[i].id;
        assert(names(records, id));
        let j = choose|j: int| 0 <= j < records.len() && (#[trigger] records[j]).id == id;
        assert(j == i);
    }
}

/// A mapping that `records` lists is the mapping that they stand for.
pub proof fn lemma_listed_is_directory_of(
    records: Seq<PeerView>,
    directory: Map<Seq<char>, PeerView>,
)
    requires
        lists_exactly(records, directory),
    ensures
        directory == directory_of(records),
{
    lemma_directory_of_lists(records);
    let other = directory_of(records);
    assert forall|id: Seq<char>| directory.contains_key(id) implies other.contains_key(id)
        && other[id] == directory[id] by {
        let i = choose|i: int| 0 <= i < records.len() && (#[trigger] records[i]).id == id;
        assert(other[records[i].id] == records[i]);
    }
    assert forall|id: Seq<char>| other.contains_key(id) implies directory.contains_key(id) by {
        let i = choose|i: int| 0 <= i < records.len() && (#[trigger] records[i]).id == id;
        assert(directory.contains_key(records[i].id));
    }
    assert(directory =~= other);
}

/// Records with distinct identifiers stand for a mapping with as many entries
/// as there are records.
pub proof fn lemma_directory_of_len(records: Seq<PeerView>)
    requires
        distinct_ids(records),
    ensures
        directory_of(records).dom().finite(),
        directory_of(records).dom().len() == records.len(),
    decreases records.len(),
{
    let domain = directory_of(records).dom();
    if records.len() == 0 {
        assert(domain =~= Set::<Seq<char>>::empty());
    } else {
        let earlier = records.drop_last();
        let last = records.last();
        lemma_directory_of_len(earlier);
        let before = directory_of(earlier).dom();
        assert forall|id: Seq<char>| domain.contains(id) <==> before.insert(last.id).contains(
            id,
        ) by {
            if names(records, id) {
                let i = choose|i: int| 0 <= i < records.len() && (#[trigger] records[i]).id == id;
                if i < earlier.len() {
                    assert(earlier[i].id == id);
                }
            }
            if names(earlier, id) {
                let i = choose|i: int| 0 <= i < earlier.len() && (#[trigger] earlier[i]).id == id;
                assert(records[i].id == id);
            }
            if id == last.id {
                assert(records[records.len() - 1].id == id);
            }
        }
        assert(domain =~= before.insert(last.id));
        if before.contains(last.id) {
            let i = choose|i: int| 0 <= i < earlier.len() && (#[trigger] earlier[i]).id == last.id;
            assert(records[i].id != records[records.len() - 1].id);
        }
    }
}

/// The latest status record received from each peer, by peer identifier.
///
/// A record that arrives for an identifier already present takes the place of
/// the one before it. Nothing leaves the directory but by [`PeerDirectory::clear`].
#[derive(Debug)]
pub struct PeerDirectory {
    entries: Vec<Peer>,
}

impl View for PeerDirectory {
    type V = Map<Seq<char>, PeerView>;

    closed spec fn view(&self) -> Map<Seq<char>, PeerView> {
        directory_of(views_of(self.entries@))
    }
}

impl PeerDirectory {
    #[verifier::type_invariant]
    spec fn well_formed(self) -> bool {
        distinct_ids(views_of(self.entries@))
    }

    /// A directory without entries.
    pub fn new() -> (directory: Self)
        ensures
            directory@ == Map::<Seq<char>, PeerView>::empty(),
    {
        let directory = PeerDirectory { entries: Vec::new() };
        assert(directory@ =~= Map::<Seq<char>, PeerView>::empty());
        directory
    }

    /// Where the record for `id` stands among the entries, if there is one.
    fn position(&self, id: &String) -> (found: Option<usize>)
        ensures
            match found {
                Some(at) => at < self.entries@.len() && self.entries@[at as int]@.id == id@,
                None => !names(views_of(self.entries@), id@),
            },
    {
        let mut at: usize = 0;
        while at < self.entries.len()
            invariant
                at <= self.entries@.len(),
                forall|i: int| 0 <= i < at ==> (#[trigger] self.entries@[i])@.id != id@,
            decreases self.entries@.len() - at,
        {
            if self.entries[at].id == *id {
                return Some(at);
            }
            at = at + 1;
        }
        assert forall|i: int| 0 <= i < views_of(self.entries@).len() implies (
        #[trigger] views_of(self.entries@)[i]).id != id@ by {
            assert(self.entries@[i]@.id != id@);
        }
        None
    }

    /// How many peers have a record.
    pub fn len(&self) -> (count: usize)
        ensures
            self@.dom().finite(),
            count == self@.dom().len(),
    {
        proof {
            use_type_invariant(self);
            lemma_directory_of_len(views_of(self.entries@));
        }
        self.entries.len()
    }

    /// Whether no peer has a record.
    pub fn is_empty(&self) -> (empty: bool)
        ensures
            empty == (self@ == Map::<Seq<char>, PeerView>::empty()),
    {
        proof {
            use_type_invariant(self);
            lemma_directory_of_lists(views_of(self.entries@));
            if self.entries@.len() == 0 {
                assert(self@ =~= Map::<Seq<char>, PeerView>::empty());
            } else {
                assert(self@.contains_key(views_of(self.entries@)[0].id));
            }
        }
        self.entries.len() == 0
    }

    /// Whether a record for `id` is present.
    pub fn contains(&self, id: &String) -> (present: bool)
        ensures
            present == self@.contains_key(id@),
    {
        match self.position(id) {
            Some(at) => {
                assert(views_of(self.entries@)[at as int].id == id@);
                true
            },
            None => false,
        }
    }

    /// A copy of the record for `id`, if one is present.
    pub fn get(&self, id: &String) -> (record: Option<Peer>)
        ensures
            match record {
                Some(peer) => self@.contains_key(id@) && peer@ == self@[id@],
                None => !self@.contains_key(id@),
            },
    {
        proof {
            use_type_invariant(self);
            lemma_directory_of_lists(views_of(self.entries@));
        }
        match self.position(id) {
            Some(at) => {
                assert(views_of(self.entries@)[at as int] == self.entries@[at as int]@);
                Some(self.entries[at].clone())
            },
            None => None,
        }
    }

    /// Files `peer` under its identifier, in place of any record that was there.
    pub fn insert(&mut self, peer: Peer)
        ensures
            final(self)@ == old(self)@.insert(peer@.id, peer@),
    {
        proof {
            use_type_invariant(&*self);
        }
        let ghost before = views_of(self.entries@);
        let ghost added = peer@;
        let found = self.position(&peer.id);
        let mut entries: Vec<Peer> = Vec::new();
        core::mem::swap(&mut self.entries, &mut entries);
        match found {
            Some(at) => {
                entries.set(at, peer);
                proof {
                    let after = views_of(entries@);
                    assert(after =~= before.update(at as int, added));
                    assert forall|i: int, j: int| 0 <= i < j < after.len() implies (
                    #[trigger] after[i]).id != (#[trigger] after[j]).id by {
                        assert(before[i].id != before[j].id);
                    }
                    lemma_directory_of_lists(before);
                    lemma_directory_of_lists(after);
                    let wanted = directory_of(before).insert(added.id, added);
                    assert forall|i: int| 0 <= i < after.len() implies wanted.contains_key(
                        (#[trigger] after[i]).id,
                    ) && wanted[after[i].id] == after[i] by {
                        if i != at {
                            assert(before[i].id != before[at as int].id);
                            assert(directory_of(before)[before[i].id] == before[i]);
                        }
                    }
                    assert forall|id: Seq<char>| #[trigger]
                        wanted.contains_key(id) implies names(after, id) by {
                        if id == added.id {
                            assert(after[at as int].id == id);
                        } else {
                            let i = choose|i: int|
                                0 <= i < before.len() && (#[trigger] before[i]).id == id;
                            assert(after[i].id == id);
                        }
                    }
                    lemma_listed_is_directory_of(after, wanted);
                }
            },
            None => {
                entries.push(peer);
                proof {
                    let after = views_of(entries@);
                    assert(after =~= before.push(added));
                    assert forall|i: int, j: int| 0 <= i < j < after.len() implies (
                    #[trigger] after[i]).id != (#[trigger] after[j]).id by {
                        if j < before.len() {
                            assert(before[i].id != before[j].id);
                        } else {
                            assert(before[i].id != added.id);
                        }
                    }
                    lemma_directory_of_lists(before);
                    let wanted = directory_of(before).insert(added.id, added);
                    assert forall|i: int| 0 <= i < after.len() implies wanted.contains_key(
                        (#[trigger] after[i]).id,
                    ) && wanted[after[i].id] == after[i] by {
                        if i < before.len() {
                            assert(before[i].id != added.id);
                            assert(directory_of(before)[before[i].id] == before[i]);
                        }
                    }
                    assert forall|id: Seq<char>| #[trigger]
                        wanted.contains_key(id) implies names(after, id) by {
                        if id == added.id {
                            assert(after[before.len() as int].id == id);
                        } else {
                            let i = choose|i: int|
                                0 <= i < before.len() && (#[trigger] before[i]).id == id;
                            assert(after[i].id == id);
                        }
                    }
                    lemma_listed_is_directory_of(after, wanted);
                }
            },
        }
        self.entries = entries;
    }

    /// Drops every record.
    pub fn clear(&mut self)
        ensures
            final(self)@ == Map::<Seq<char>, PeerView>::empty(),
    {
        self.entries = Vec::new();
        assert(self@ =~= Map::<Seq<char>, PeerView>::empty());
    }

    /// Copies of all records, one for each identifier present.
    pub fn peers(&self) -> (records: Vec<Peer>)
        ensures
            lists_exactly(views_of(records@), self@),
    {
        proof {
            use_type_invariant(self);
            lemma_directory_of_lists(views_of(self.entries@));
        }
        let mut records: Vec<Peer> = Vec::new();
        let mut at: usize = 0;
        while at < self.entries.len()
            invariant
                at <= self.entries@.len(),
                records@.len() == at,
                forall|i: int| 0 <= i < at ==> (#[trigger] records@[i])@ == self.entries@[i]@,
            decreases self.entries@.len() - at,
        {
            records.push(self.entries[at].clone());
            at = at + 1;
        }
        assert(views_of(records@) =~= views_of(self.entries@));
        records
    }
}

impl Clone for PeerDirectory {
    fn clone(&self) -> (copy: Self)
        ensures
            copy@ == self@,
    {
        proof {
            use_type_invariant(self);
            lemma_directory_of_lists(views_of(self.entries@));
        }
        let entries = self.peers();
        proof {
            lemma_listed_is_directory_of(views_of(entries@), self@);
        }
        PeerDirectory { entries }
    }
}

} // verus!
