//! Per-connection translation between names and the two numeric ID spaces.
//!
//! Each endpoint numbers the names it meets densely from zero, in the order
//! they arrive, and never renumbers them; the peer's own numbering for the
//! same name is recorded beside it once a description message announces it.

use vstd::prelude::*;
use crate::error::Error;
use crate::types::BaseTypeSafeId;
use crate::types::LocalId;
use crate::types::RangedId;
use crate::types::RemoteId;
use crate::types::TypeSafeId;
use crate::types::determine_id_range;

verus! {

/// One row of a translation table: a name, its dense local ID, and, once
/// the peer has announced it, the peer's ID for the same name.
pub struct TranslationEntry<T: BaseTypeSafeId> {
    pub name: Vec<u8>,
    pub local_id: LocalId<T>,
    pub remote_id: Option<RemoteId<T>>,
}

/// A dense, append-only table mapping names to local IDs and recording the
/// peer's IDs beside them.
pub struct TranslationTable<T: BaseTypeSafeId> {
    pub entries: Vec<TranslationEntry<T>>,
}

/// Compares two byte vectors for equality.
pub(crate) fn vec_u8_eq(a: &Vec<u8>, b: &Vec<u8>) -> (r: bool)
    ensures
        r == (a@ == b@),
{
    if a.len() != b.len() {
        return false;
    }
    let mut i: usize = 0;
    while i < a.len()
        invariant
            i <= a.len(),
            a@.len() == b@.len(),
            forall|j: int| 0 <= j < i ==> a@[j] == b@[j],
        decreases a.len() - i,
    {
        if a[i] != b[i] {
            return false;
        }
        i = i + 1;
    }
    proof {
        assert(a@ =~= b@);
    }
    true
}

/// The names a table holds, in local-ID order: index `i` is the name that
/// local ID `i` stands for.
pub open spec fn table_names<T: BaseTypeSafeId>(t: TranslationTable<T>) -> Seq<Seq<u8>> {
    t.entries@.map(|i: int, e: TranslationEntry<T>| e.name@)
}

/// What registering a name does to a dense name list: an already-known name
/// changes nothing and keeps its index; a new name is appended and numbered
/// with the old length.
pub open spec fn spec_register_name(names: Seq<Seq<u8>>, name: Seq<u8>) -> (Seq<Seq<u8>>, int) {
    if exists|i: int| 0 <= i < names.len() && names[i] == name {
        (names, choose|i: int| 0 <= i < names.len() && names[i] == name)
    } else {
        (names.push(name), names.len() as int)
    }
}

impl<T: BaseTypeSafeId> TranslationTable<T> {
    /// Well-formedness: local IDs are exactly the dense indexes, names are
    /// unique, and the table fits the signed 32-bit ID space.
    pub open spec fn wf(self) -> bool {
        &&& self.entries@.len() <= i32::MAX
        &&& forall|i: int|
            0 <= i < self.entries@.len() ==> (#[trigger] self.entries@[i].local_id).id_spec() == i
        &&& forall|i: int, j: int|
            0 <= i < j < self.entries@.len() ==> (#[trigger] self.entries@[i].name@) != (
            #[trigger] self.entries@[j].name@)
    }

    /// True when some entry carries this name.
    pub open spec fn has_name(self, name: Seq<u8>) -> bool {
        exists|i: int| 0 <= i < self.entries@.len() && (#[trigger] self.entries@[i].name@) == name
    }

    pub fn new() -> (r: TranslationTable<T>)
        ensures
            r.wf(),
            r.entries@.len() == 0,
    {
        TranslationTable { entries: Vec::new() }
    }

    /// The number of entries, which is also the next local ID to be
    /// assigned.
    pub fn len(&self) -> (r: usize)
        ensures
            r == self.entries@.len(),
    {
        self.entries.len()
    }

    /// Registers a name. A name already present keeps its local ID and the
    /// table is unchanged; a new name is appended and assigned the next
    /// dense ID. Fails only when the signed 32-bit ID space is exhausted.
    pub fn add(&mut self, name: Vec<u8>) -> (r: Result<LocalId<T>, Error>)
        requires
            old(self).wf(),
        ensures
            final(self).wf(),
            match r {
                Ok(id) => {
                    &&& 0 <= id.id_spec() < final(self).entries@.len()
                    &&& final(self).entries@[id.id_spec() as int].name@ == name@
                    &&& (table_names(*final(self)), id.id_spec() as int) == spec_register_name(
                        table_names(*old(self)),
                        name@,
                    )
                    &&& old(self).has_name(name@) ==> *final(self) == *old(self)
                    &&& !old(self).has_name(name@) ==> (final(self).entries@ == old(
                        self,
                    ).entries@.push(
                        (TranslationEntry {
                            name: name,
                            local_id: id,
                            remote_id: None::<RemoteId<T>>,
                        }),
                    ) && id.id_spec() == old(self).entries@.len())
                },
                Err(e) => {
                    &&& e == Error::TooManyMappings
                    &&& !old(self).has_name(name@)
                    &&& old(self).entries@.len() == i32::MAX
                    &&& *final(self) == *old(self)
                },
            },
    {
        let n = self.entries.len();
        let mut i: usize = 0;
        while i < n
            invariant
                i <= n,
                n == self.entries@.len(),
                *self == *old(self),
                old(self).wf(),
                forall|j: int| 0 <= j < i ==> (#[trigger] self.entries@[j].name@) != name@,
            decreases n - i,
        {
            if vec_u8_eq(&self.entries[i].name, &name) {
                let id = self.entries[i].local_id;
                proof {
                    let names = table_names(*self);
                    assert(names[i as int] == self.entries@[i as int].name@);
                    assert(0 <= i < names.len() && names[i as int] == name@);
                    let ci = choose|k: int| 0 <= k < names.len() && names[k] == name@;
                    assert(names[ci] == self.entries@[ci].name@);
                    if ci != i as int {
                        if ci < i as int {
                            assert(self.entries@[ci].name@ != self.entries@[i as int].name@);
                        } else {
                            assert(self.entries@[i as int].name@ != self.entries@[ci].name@);
                        }
                    }
                    assert(ci == i as int);
                }
                return Ok(id);
            }
            i = i + 1;
        }
        if n >= i32::MAX as usize {
            proof {
                assert(!old(self).has_name(name@));
            }
            return Err(Error::TooManyMappings);
        }
        let id = LocalId(T::new(n as i32));
        let ghost old_names = table_names(*self);
        self.entries.push(TranslationEntry { name, local_id: id, remote_id: None });
        proof {
            assert(!old(self).has_name(table_names(*self)[n as int]));
            assert(table_names(*self) =~= old_names.push(table_names(*self)[n as int]));
        }
        Ok(id)
    }

    /// The local ID registered for a name, if any.
    pub fn lookup_by_name(&self, name: &Vec<u8>) -> (r: Option<LocalId<T>>)
        requires
            self.wf(),
        ensures
            match r {
                Some(id) => 0 <= id.id_spec() < self.entries@.len() && self.entries@[id.id_spec()
                    as int].name@ == name@,
                None => !self.has_name(name@),
            },
    {
        let n = self.entries.len();
        let mut i: usize = 0;
        while i < n
            invariant
                i <= n,
                self.wf(),
                n == self.entries@.len(),
                forall|j: int| 0 <= j < i ==> (#[trigger] self.entries@[j].name@) != name@,
            decreases n - i,
        {
            if vec_u8_eq(&self.entries[i].name, name) {
                return Some(self.entries[i].local_id);
            }
            i = i + 1;
        }
        None
    }

    /// The name a local ID stands for, if the ID is in range.
    pub fn lookup_by_local_id(&self, id: LocalId<T>) -> (r: Option<&Vec<u8>>)
        requires
            self.wf(),
        ensures
            match r {
                Some(name) => 0 <= id.id_spec() < self.entries@.len() && name@
                    == self.entries@[id.id_spec() as int].name@,
                None => !(0 <= id.id_spec() < self.entries@.len()),
            },
    {
        match determine_id_range(id.0, self.entries.len()) {
            RangedId::InArray(index) => Some(&self.entries[index as usize].name),
            _ => None,
        }
    }

    /// Records that the peer numbers `name` as `remote_id`, creating the
    /// local entry first if the name is new. This is how a message tagged
    /// with the sender's numbering becomes translatable into ours.
    pub fn add_remote_entry(&mut self, name: Vec<u8>, remote_id: RemoteId<T>) -> (r: Result<
        LocalId<T>,
        Error,
    >)
        requires
            old(self).wf(),
        ensures
            final(self).wf(),
            match r {
                Ok(id) => {
                    &&& 0 <= id.id_spec() < final(self).entries@.len()
                    &&& final(self).entries@.len() == (if old(self).has_name(name@) {
                        old(self).entries@.len() as int
                    } else {
                        old(self).entries@.len() as int + 1
                    })
                    &&& final(self).entries@[id.id_spec() as int].name@ == name@
                    &&& final(self).entries@[id.id_spec() as int].remote_id == Some(remote_id)
                    &&& forall|i: int|
                        0 <= i < old(self).entries@.len() && i != id.id_spec()
                            ==> final(self).entries@[i] == old(self).entries@[i]
                },
                Err(e) => {
                    &&& e == Error::TooManyMappings
                    &&& !old(self).has_name(name@)
                    &&& old(self).entries@.len() == i32::MAX
                    &&& *final(self) == *old(self)
                },
            },
    {
        let id = self.add(name)?;
        let index = id.get();
        let entry = &mut self.entries[index as usize];
        entry.remote_id = Some(remote_id);
        Ok(id)
    }

    /// The local ID whose entry records this peer ID, searching in local-ID
    /// order; `None` when no entry does.
    pub fn map_to_local_id(&self, remote_id: RemoteId<T>) -> (r: Option<LocalId<T>>)
        requires
            self.wf(),
        ensures
            match r {
                Some(l) => {
                    &&& 0 <= l.id_spec() < self.entries@.len()
                    &&& remote_entry_matches(self.entries@[l.id_spec() as int], remote_id)
                    &&& forall|j: int|
                        0 <= j < l.id_spec() ==> !remote_entry_matches(
                            #[trigger] self.entries@[j],
                            remote_id,
                        )
                },
                None => forall|j: int|
                    0 <= j < self.entries@.len() ==> !remote_entry_matches(
                        #[trigger] self.entries@[j],
                        remote_id,
                    ),
            },
    {
        let n = self.entries.len();
        let mut i: usize = 0;
        while i < n
            invariant
                i <= n,
                self.wf(),
                n == self.entries@.len(),
                forall|j: int|
                    0 <= j < i ==> !remote_entry_matches(#[trigger] self.entries@[j], remote_id),
            decreases n - i,
        {
            let hit = match &self.entries[i].remote_id {
                Some(rm) => rm.get() == remote_id.get(),
                None => false,
            };
            if hit {
                return Some(self.entries[i].local_id);
            }
            i = i + 1;
        }
        None
    }
}

/// True when the entry records exactly this peer ID.
pub open spec fn remote_entry_matches<T: BaseTypeSafeId>(
    e: TranslationEntry<T>,
    remote_id: RemoteId<T>,
) -> bool {
    e.remote_id matches Some(rm) && rm.id_spec() == remote_id.id_spec()
}

/// Law: registering the same name twice yields the same ID both times, and
/// the second registration changes nothing.
pub proof fn lemma_register_name_idempotent(names: Seq<Seq<u8>>, name: Seq<u8>)
    ensures
        spec_register_name(spec_register_name(names, name).0, name).0 == spec_register_name(
            names,
            name,
        ).0,
        spec_register_name(spec_register_name(names, name).0, name).1 == spec_register_name(
            names,
            name,
        ).1,
{
    let (names1, id1) = spec_register_name(names, name);
    assert(0 <= id1 < names1.len() && names1[id1] == name);
    if exists|i: int| 0 <= i < names.len() && names[i] == name {
    } else {
        assert(names1[names.len() as int] == name);
    }
}

} // verus!
