//! Reference counting for the resources that host and scripts share.

use vstd::prelude::*;

use crate::resource::{
    after_clone, after_drop, has_room, live, Entry, Handle, ResourceError, ResourceKind,
};
use crate::table::Table;

verus! {

/// A counter of the holders of a resource. A new counter holds 1, which
/// stands for the table's own holding.
#[derive(Debug)]
pub struct RefCountCell(pub usize);

impl View for RefCountCell {
    type V = nat;

    open spec fn view(&self) -> nat {
        self.0 as nat
    }
}

impl Default for RefCountCell {
    fn default() -> (cell: RefCountCell)
        ensures
            cell@ == 1,
    {
        RefCountCell(1)
    }
}

/// A value that carries a reference count.
pub trait RefCount: Sized {
    /// The number of holders.
    spec fn count(&self) -> nat;

    /// This value with its count replaced by `count`.
    spec fn with_count(&self, count: usize) -> Self;

    /// The number of holders.
    fn ref_count(&self) -> (count: usize)
        ensures
            count == self.count(),
    ;

    /// Replaces the count; nothing else changes.
    fn set_ref_count(&mut self, count: usize)
        ensures
            *final(self) == old(self).with_count(count),
            final(self).count() == count,
    ;

    /// Increments the count by 1 and returns the new value.
    fn increment(&mut self) -> (new: usize)
        requires
            old(self).count() < usize::MAX,
        ensures
            new == old(self).count() + 1,
            *final(self) == old(self).with_count(new),
            final(self).count() == new,
    {
        let new = self.ref_count() + 1;
        self.set_ref_count(new);
        new
    }

    /// Decrements the count by 1 and returns the new value. A count of 0
    /// stays as it is.
    fn decrement(&mut self) -> (new: usize)
        ensures
            old(self).count() == 0 ==> new == 0 && *final(self) == *old(self),
            old(self).count() > 0 ==> new == old(self).count() - 1 && *final(self) == old(
                self,
            ).with_count(new),
            final(self).count() == new,
    {
        let val = self.ref_count();
        if val == 0 {
            return 0;
        }
        let new = val - 1;
        self.set_ref_count(new);
        new
    }
}

impl RefCount for RefCountCell {
    open spec fn count(&self) -> nat {
        self@
    }

    open spec fn with_count(&self, count: usize) -> RefCountCell {
        RefCountCell(count)
    }

    fn ref_count(&self) -> (count: usize) {
        self.0
    }

    fn set_ref_count(&mut self, count: usize) {
        self.0 = count;
    }
}

impl RefCount for Entry {
    open spec fn count(&self) -> nat {
        self.ref_count@
    }

    open spec fn with_count(&self, count: usize) -> Entry {
        Entry { data: self.data, ref_count: RefCountCell(count) }
    }

    fn ref_count(&self) -> (count: usize) {
        self.ref_count.0
    }

    fn set_ref_count(&mut self, count: usize) {
        self.ref_count.0 = count;
    }
}

/// A resource of the table whose handles are counted. New handles must be
/// made with the functions of this trait, so that the count stays accurate.
pub trait RefResource: RefCount {
    /// The type tag of this resource.
    spec fn kind(&self) -> ResourceKind;

    /// Counts one more holder and returns the new holder's handle.
    fn new_own(&mut self, rep: u32) -> (handle: Handle)
        requires
            old(self).count() < usize::MAX,
        ensures
            handle.rep == rep,
            handle.kind == old(self).kind(),
            final(self).count() == old(self).count() + 1,
            *final(self) == old(self).with_count((old(self).count() + 1) as usize),
    ;

    /// Makes a new handle to the resource that `res` names.
    fn from_res(res: &Handle, table: &mut Table) -> (r: Result<Handle, ResourceError>)
        requires
            old(table).wf(),
            has_room(old(table)@, *res),
        ensures
            final(table).wf(),
            final(table).slots() == old(table).slots(),
            r is Ok <==> live(old(table)@, *res),
            r is Ok ==> r->Ok_0 == *res && final(table)@ == after_clone(old(table)@, res.rep),
            r is Err ==> r->Err_0 == ResourceError::ResourceNotFound && final(table)@ == old(
                table,
            )@,
    ;

    /// Makes a new handle to the resource of the kind `kind` with the id
    /// `rep`. An entry of another kind is refused and counts no holder.
    fn from_rep(rep: u32, kind: ResourceKind, table: &mut Table) -> (r: Result<
        Handle,
        ResourceError,
    >)
        requires
            old(table).wf(),
            has_room(old(table)@, Handle { rep, kind }),
        ensures
            final(table).wf(),
            final(table).slots() == old(table).slots(),
            r is Ok <==> live(old(table)@, Handle { rep, kind }),
            r is Ok ==> r->Ok_0 == (Handle { rep, kind }) && final(table)@ == after_clone(
                old(table)@,
                rep,
            ),
            r is Err ==> r->Err_0 == ResourceError::ResourceNotFound && final(table)@ == old(
                table,
            )@,
    ;

    /// Drops one handle. The entry is deleted when only the table's own
    /// holding is left afterwards; the result says whether it was.
    fn handle_drop(res: Handle, table: &mut Table) -> (r: Result<bool, ResourceError>)
        requires
            old(table).wf(),
        ensures
            final(table).wf(),
            final(table).slots() == old(table).slots(),
            r is Ok <==> live(old(table)@, res),
            r is Ok ==> r->Ok_0 == (old(table)@[res.rep].ref_count == 2) && final(table)@
                == after_drop(old(table)@, res.rep),
            r is Err ==> r->Err_0 == ResourceError::ResourceNotFound && final(table)@ == old(
                table,
            )@,
    ;
}

impl RefResource for Entry {
    open spec fn kind(&self) -> ResourceKind {
        self.data@.kind()
    }

    fn new_own(&mut self, rep: u32) -> (handle: Handle) {
        self.increment();
        Handle { rep, kind: self.data.kind() }
    }

    fn from_res(res: &Handle, table: &mut Table) -> (r: Result<Handle, ResourceError>) {
        table.clone_handle(res)
    }

    fn from_rep(rep: u32, kind: ResourceKind, table: &mut Table) -> (r: Result<
        Handle,
        ResourceError,
    >) {
        Self::from_res(&Handle { rep, kind }, table)
    }

    fn handle_drop(res: Handle, table: &mut Table) -> (r: Result<bool, ResourceError>) {
        match table.drop_handle(res) {
            Ok(deleted) => Ok(deleted.is_some()),
            Err(error) => Err(error),
        }
    }
}

} // verus!
