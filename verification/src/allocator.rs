//! Memory for the device.

use vstd::prelude::*;

verus! {

/// The access rights of a block of memory mapped for the device.
#[derive(Clone, Copy, Debug, PartialEq, Eq, Structural)]
pub enum MemoryAccess {
    ReadWrite,
    ReadWriteExecute,
}

/// The access rights a block is mapped with: readable and writable, and also
/// executable where it is to hold generated code.
pub fn memory_access(exec: bool) -> (r: MemoryAccess)
    ensures
        r == (if exec { MemoryAccess::ReadWriteExecute } else { MemoryAccess::ReadWrite }),
{
    if exec {
        MemoryAccess::ReadWriteExecute
    } else {
        MemoryAccess::ReadWrite
    }
}

} // verus!
