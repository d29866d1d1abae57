//! Tables: rows of one structure type, reached through a cursor.
use vstd::prelude::*;

use crate::error::RfcErrorInfo;
use crate::rc::HandleSlot;
use crate::structure::RfcStructure;

verus! {

/// A table. It borrows the data container it lives in and cannot outlive it;
/// each row it hands out borrows the table in turn.
#[derive(Debug)]
pub struct RfcTable<'data> {
    container: &'data HandleSlot,
    handle: HandleSlot,
    type_desc: usize,
}

impl<'data> RfcTable<'data> {
    pub closed spec fn container(&self) -> usize {
        self.container@
    }

    pub closed spec fn handle(&self) -> usize {
        self.handle@
    }

    pub closed spec fn type_desc(&self) -> usize {
        self.type_desc
    }

    pub fn new(container: &'data HandleSlot, handle: usize, type_desc: usize) -> (r: RfcTable<'data>)
        ensures
            r.container() == container@,
            r.handle() == handle,
            r.type_desc() == type_desc,
    {
        RfcTable { container, handle: HandleSlot::new(handle), type_desc }
    }

    /// The table's own handle, which the cursor calls go through.
    pub fn table_handle(&self) -> (r: usize)
        ensures
            r == self.handle(),
    {
        self.handle.get()
    }

    /// The handle of the table's row type description.
    pub fn type_desc_handle(&self) -> (r: usize)
        ensures
            r == self.type_desc(),
    {
        self.type_desc
    }

    /// The row under the cursor, from the row handle and the row type that
    /// the runtime returned for it once the cursor had moved.
    pub fn row<'row>(&'row self, row: usize, row_type: usize) -> (r: RfcStructure<'row>)
        ensures
            r.container() == self.handle(),
            r.handle() == row,
            r.type_desc() == row_type,
    {
        RfcStructure::new(&self.handle, row, row_type)
    }

    /// The row that appending or inserting created, of the table's own row
    /// type: an error, the record that the call filled in, where the runtime
    /// returned a null row handle.
    pub fn new_row<'row>(&'row mut self, row: usize, err: RfcErrorInfo) -> (r: Result<
        RfcStructure<'row>,
        RfcErrorInfo,
    >)
        ensures
            row != 0 ==> (r matches Ok(s) && s.container() == old(self).handle() && s.handle()
                == row && s.type_desc() == old(self).type_desc()),
            row == 0 ==> r == Err::<RfcStructure<'row>, RfcErrorInfo>(err),
    {
        if row == 0 {
            Err(err)
        } else {
            Ok(RfcStructure::new(&self.handle, row, self.type_desc))
        }
    }
}

} // verus!
