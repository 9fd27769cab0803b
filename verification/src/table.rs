//! The resource table: an arena of reference-counted entries, each found by
//! the id that the table gave it.
//!
//! The slots are those of the component runtime's `ResourceTable`. This module
//! states what the table's methods do to the entries it holds and builds the
//! table's own operations on them.

use vstd::prelude::*;
use wasm_bridge::component::{Resource, ResourceTable, ResourceTableError};

use crate::refcount::{RefCount, RefCountCell};
use crate::resource::{
    after_clone, after_drop, has_room, live, Entry, EntryView, Handle, ResourceData,
    ResourceError,
};

verus! {

/// The component runtime's table of resources, `ResourceTable`. Nothing of
/// its inside is known here.
#[verifier::external_type_specification]
#[verifier::external_body]
pub struct ExResourceTable(ResourceTable);

/// The error of the component runtime's table, `ResourceTableError`. Which
/// error a call returned is not looked at: the contracts below say when a
/// call fails.
#[verifier::external_type_specification]
#[verifier::external_body]
pub struct ExResourceTableError(ResourceTableError);

/// The entries that a runtime table holds, by id. Only slots that hold an
/// [`Entry`] count; a free slot has no id here.
pub uninterp spec fn table_entries(table: ResourceTable) -> Map<u32, EntryView>;

/// The ids of the slots to which a child slot is attached. The runtime table
/// refuses to delete these.
pub uninterp spec fn table_parents(table: ResourceTable) -> Set<u32>;

/// The number of slots that a runtime table has made so far, the free ones
/// among them. The table has an id for a new entry as long as a slot is free
/// or this number fits the ids.
pub uninterp spec fn table_slots(table: ResourceTable) -> nat;

/// `ResourceTable::new`: a table without entries and without slots.
#[verifier::external_body]
fn table_new() -> (table: ResourceTable)
    ensures
        (table_entries(table) == Map::<u32, EntryView>::empty()),
        table_parents(table) == Set::<u32>::empty(),
        table_slots(table) == 0,
{
    ResourceTable::new()
}

/// `ResourceTable::push`: on success the entry stands under an id that was
/// free before, and no other entry changes; on failure nothing changes. The
/// new slot has no parent and no child. The call takes a free slot or makes
/// one more, and it succeeds whenever the number of slots made so far fits
/// an id.
#[verifier::external_body]
fn table_push(table: &mut ResourceTable, entry: Entry) -> (r: Result<u32, ResourceTableError>)
    ensures
        table_parents(*final(table)) == table_parents(*old(table)),
        table_slots(*old(table)) <= u32::MAX ==> r is Ok,
        table_slots(*old(table)) <= table_slots(*final(table)) <= table_slots(*old(table)) + 1,
        r is Ok ==> !table_entries(*old(table)).dom().contains(r->Ok_0) && table_entries(
            *final(table),
        ) == table_entries(*old(table)).insert(r->Ok_0, entry@),
        r is Err ==> table_entries(*final(table)) == table_entries(*old(table)),
{
    match table.push(entry) {
        Ok(resource) => Ok(resource.rep()),
        Err(error) => Err(error),
    }
}

/// `ResourceTable::get`: succeeds exactly for the ids that hold an entry, and
/// then hands out that entry.
#[verifier::external_body]
fn table_get(table: &ResourceTable, rep: u32) -> (r: Result<&Entry, ResourceTableError>)
    ensures
        r is Ok <==> table_entries(*table).dom().contains(rep),
        r is Ok ==> (*r->Ok_0)@ == table_entries(*table)[rep],
{
    table.get(&Resource::<Entry>::new_own(rep))
}

/// `ResourceTable::get_mut`: succeeds exactly for the ids that hold an entry,
/// and then lends that entry out; whatever the borrower leaves in it is the
/// table's entry afterwards. No other entry changes, and no slot is made.
#[verifier::external_body]
fn table_get_mut(table: &mut ResourceTable, rep: u32) -> (r: Result<
    &mut Entry,
    ResourceTableError,
>)
    ensures
        r is Ok <==> table_entries(*old(table)).dom().contains(rep),
        table_parents(*final(table)) == table_parents(*old(table)),
        table_slots(*final(table)) == table_slots(*old(table)),
        r is Err ==> table_entries(*final(table)) == table_entries(*old(table)),
        r is Ok ==> (*r->Ok_0)@ == table_entries(*old(table))[rep] && table_entries(
            *final(table),
        ) == table_entries(*old(table)).insert(rep, (*final(r->Ok_0))@),
{
    table.get_mut(&Resource::<Entry>::new_own(rep))
}

/// `ResourceTable::delete`: succeeds exactly for the ids that hold an entry
/// to which no child is attached; the entry then leaves the table and is
/// handed out. On failure no entry changes. No slot gains a child. The slot
/// of a deleted entry is kept as a free one.
#[verifier::external_body]
fn table_delete(table: &mut ResourceTable, rep: u32) -> (r: Result<Entry, ResourceTableError>)
    ensures
        table_slots(*final(table)) == table_slots(*old(table)),
        r is Ok <==> table_entries(*old(table)).dom().contains(rep) && !table_parents(
            *old(table),
        ).contains(rep),
        table_parents(*final(table)).subset_of(table_parents(*old(table))),
        r is Ok ==> (r->Ok_0)@ == table_entries(*old(table))[rep] && table_entries(*final(table))
            == table_entries(*old(table)).remove(rep),
        r is Err ==> table_entries(*final(table)) == table_entries(*old(table)),
{
    table.delete(Resource::<Entry>::new_own(rep))
}

/// The resource table.
pub struct Table {
    inner: ResourceTable,
}

impl Table {
    /// The live entries, by id.
    pub closed spec fn view(&self) -> Map<u32, EntryView> {
        table_entries(self.inner)
    }

    /// No slot of the table has a child attached, so every live entry can be
    /// deleted.
    pub closed spec fn wf(&self) -> bool {
        table_parents(self.inner) == Set::<u32>::empty()
    }

    /// The number of slots that the table has made so far, the free ones
    /// among them. A new entry takes a free slot or makes one more.
    pub closed spec fn slots(&self) -> nat {
        table_slots(self.inner)
    }

    /// A table without entries.
    pub fn new() -> (table: Table)
        ensures
            table.wf(),
            table.slots() == 0,
            (table@ == Map::<u32, EntryView>::empty()),
    {
        Table { inner: table_new() }
    }

    /// Inserts `data` as a new entry with a reference count of 1, which
    /// stands for the table's own holding, and returns a handle to it. This
    /// succeeds as long as the number of slots fits an id.
    pub fn create(&mut self, data: ResourceData) -> (r: Result<Handle, ResourceError>)
        requires
            old(self).wf(),
        ensures
            final(self).wf(),
            old(self).slots() <= u32::MAX ==> r is Ok,
            old(self).slots() <= final(self).slots() <= old(self).slots() + 1,
            match r {
                Ok(handle) => {
                    &&& !old(self)@.dom().contains(handle.rep)
                    &&& handle.kind == data@.kind()
                    &&& final(self)@ == old(self)@.insert(
                        handle.rep,
                        EntryView { data: data@, ref_count: 1 },
                    )
                },
                Err(error) => error == ResourceError::TableFull && final(self)@ == old(self)@,
            },
    {
        let kind = data.kind();
        let entry = Entry { data, ref_count: RefCountCell::default() };
        match table_push(&mut self.inner, entry) {
            Ok(rep) => Ok(Handle { rep, kind }),
            Err(_) => Err(ResourceError::TableFull),
        }
    }

    /// The entry with the id `rep`, if it is live.
    pub fn entry(&self, rep: u32) -> (r: Option<&Entry>)
        ensures
            r is Some <==> self@.dom().contains(rep),
            r is Some ==> (*r->0)@ == self@[rep],
    {
        match table_get(&self.inner, rep) {
            Ok(entry) => Some(entry),
            Err(_) => None,
        }
    }

    /// Lends out the entry with the id `rep`, if it is live. What the
    /// borrower leaves in it is the table's entry afterwards.
    pub(crate) fn entry_mut(&mut self, rep: u32) -> (r: Option<&mut Entry>)
        requires
            old(self).wf(),
        ensures
            final(self).wf(),
            final(self).slots() == old(self).slots(),
            r is Some <==> old(self)@.dom().contains(rep),
            r is None ==> final(self)@ == old(self)@,
            r is Some ==> (*r->0)@ == old(self)@[rep] && final(self)@ == old(self)@.insert(
                rep,
                (*final(r->0))@,
            ),
    {
        match table_get_mut(&mut self.inner, rep) {
            Ok(entry) => Some(entry),
            Err(_) => None,
        }
    }

    /// Takes the entry with the id `rep` out of the table, if it is live.
    pub(crate) fn delete(&mut self, rep: u32) -> (r: Option<Entry>)
        requires
            old(self).wf(),
        ensures
            final(self).wf(),
            final(self).slots() == old(self).slots(),
            r is Some <==> old(self)@.dom().contains(rep),
            r is Some ==> (r->0)@ == old(self)@[rep] && final(self)@ == old(self)@.remove(rep),
            r is None ==> final(self)@ == old(self)@,
    {
        let taken = table_delete(&mut self.inner, rep);
        assert(table_parents(self.inner) =~= Set::<u32>::empty());
        match taken {
            Ok(entry) => Some(entry),
            Err(_) => None,
        }
    }

    /// The data that `handle` names.
    pub fn get(&self, handle: &Handle) -> (r: Result<&ResourceData, ResourceError>)
        ensures
            r is Ok <==> live(self@, *handle),
            r is Ok ==> (*r->Ok_0)@ == self@[handle.rep].data,
            r is Err ==> r->Err_0 == ResourceError::ResourceNotFound,
    {
        match self.entry(handle.rep) {
            Some(entry) => {
                if entry.data.kind() == handle.kind {
                    Ok(&entry.data)
                } else {
                    Err(ResourceError::ResourceNotFound)
                }
            },
            None => Err(ResourceError::ResourceNotFound),
        }
    }

    /// Lends out the data that `handle` names. What the borrower leaves in it
    /// is the resource's data afterwards; its reference count and all other
    /// entries stay as they are.
    pub fn get_mut(&mut self, handle: &Handle) -> (r: Result<&mut ResourceData, ResourceError>)
        requires
            old(self).wf(),
        ensures
            final(self).wf(),
            final(self).slots() == old(self).slots(),
            r is Ok <==> live(old(self)@, *handle),
            r is Ok ==> (*r->Ok_0)@ == old(self)@[handle.rep].data && final(self)@ == old(
                self,
            )@.insert(
                handle.rep,
                EntryView {
                    data: (*final(r->Ok_0))@,
                    ref_count: old(self)@[handle.rep].ref_count,
                },
            ),
            r is Err ==> r->Err_0 == ResourceError::ResourceNotFound && final(self)@ == old(self)@,
    {
        match self.entry_mut(handle.rep) {
            Some(entry) => {
                if entry.data.kind() == handle.kind {
                    Ok(&mut entry.data)
                } else {
                    Err(ResourceError::ResourceNotFound)
                }
            },
            None => Err(ResourceError::ResourceNotFound),
        }
    }

    /// Makes a new handle to the resource that `handle` names: its reference
    /// count grows by 1.
    pub fn clone_handle(&mut self, handle: &Handle) -> (r: Result<Handle, ResourceError>)
        requires
            old(self).wf(),
            has_room(old(self)@, *handle),
        ensures
            final(self).wf(),
            final(self).slots() == old(self).slots(),
            r is Ok <==> live(old(self)@, *handle),
            r is Ok ==> r->Ok_0 == *handle && final(self)@ == after_clone(old(self)@, handle.rep),
            r is Err ==> r->Err_0 == ResourceError::ResourceNotFound && final(self)@ == old(self)@,
    {
        match self.entry_mut(handle.rep) {
            Some(entry) => {
                if entry.data.kind() == handle.kind {
                    entry.increment();
                    Ok(*handle)
                } else {
                    Err(ResourceError::ResourceNotFound)
                }
            },
            None => Err(ResourceError::ResourceNotFound),
        }
    }

    /// Drops one handle to the resource that `handle` names: its reference
    /// count falls by 1, and when only the table's own holding is left the
    /// entry is deleted and handed out. A count of 0 stays as it is.
    pub fn drop_handle(&mut self, handle: Handle) -> (r: Result<Option<Entry>, ResourceError>)
        requires
            old(self).wf(),
        ensures
            final(self).wf(),
            final(self).slots() == old(self).slots(),
            r is Ok <==> live(old(self)@, handle),
            r is Ok ==> final(self)@ == after_drop(old(self)@, handle.rep) && (r->Ok_0 is Some
                <==> old(self)@[handle.rep].ref_count == 2),
            r is Ok && r->Ok_0 is Some ==> (r->Ok_0->0)@ == (EntryView {
                data: old(self)@[handle.rep].data,
                ref_count: 1,
            }),
            r is Err ==> r->Err_0 == ResourceError::ResourceNotFound && final(self)@ == old(self)@,
    {
        let count = match self.entry_mut(handle.rep) {
            Some(entry) => {
                if entry.data.kind() == handle.kind {
                    entry.decrement()
                } else {
                    return Err(ResourceError::ResourceNotFound);
                }
            },
            None => {
                return Err(ResourceError::ResourceNotFound);
            },
        };
        // The table keeps one holding of its own: the entry goes when that is
        // the only one left.
        if count == 1 {
            Ok(self.delete(handle.rep))
        } else {
            Ok(None)
        }
    }
}

} // verus!
