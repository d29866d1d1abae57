//! Structures: a row of named fields inside a data container.
use vstd::prelude::*;

use crate::rc::HandleSlot;

verus! {

/// A structure. It borrows the data container it lives in and cannot
/// outlive it.
#[derive(Debug)]
pub struct RfcStructure<'data> {
    container: &'data HandleSlot,
    handle: usize,
    type_desc: usize,
}

impl<'data> RfcStructure<'data> {
    pub closed spec fn container(&self) -> usize {
        self.container@
    }

    pub closed spec fn handle(&self) -> usize {
        self.handle
    }

    pub closed spec fn type_desc(&self) -> usize {
        self.type_desc
    }

    pub fn new(container: &'data HandleSlot, handle: usize, type_desc: usize) -> (r: RfcStructure<'data>)
        ensures
            r.container() == container@,
            r.handle() == handle,
            r.type_desc() == type_desc,
    {
        RfcStructure { container, handle, type_desc }
    }

    /// The structure's own handle, which its fields are read and written through.
    pub fn struct_handle(&self) -> (r: usize)
        ensures
            r == self.handle(),
    {
        self.handle
    }

    /// The handle of the structure's type description.
    pub fn type_desc_handle(&self) -> (r: usize)
        ensures
            r == self.type_desc(),
    {
        self.type_desc
    }
}

} // verus!
