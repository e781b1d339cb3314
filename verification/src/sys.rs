//! An explicit model of the kernel-side map table. Map creation and element
//! update are single synchronous calls in the real system; here the table
//! they act on is held in memory so the pipeline around them is verified
//! end to end, and the embedding program supplies the true syscall layer.

use vstd::prelude::*;
use crate::obj::MapDef;

verus! {

/// The error code the kernel model reports for a rejected element update.
pub const EINVAL: u32 = 22;

/// One created kernel map: its definition as created, and the value of its
/// element zero once something has been written there.
#[derive(Debug)]
pub struct KernelMap {
    pub def: MapDef,
    pub element_zero: Option<Vec<u8>>,
}

/// The kernel's table of created maps; a resource handle is an index into it.
#[derive(Debug)]
pub struct KernelMaps {
    pub maps: Vec<KernelMap>,
}

impl KernelMaps {
    /// An empty kernel map table.
    pub fn new() -> (r: KernelMaps)
        ensures
            r.maps@.len() == 0,
    {
        KernelMaps { maps: Vec::new() }
    }

    /// Create a map with the given definition; the returned resource handle
    /// identifies it from then on. Unlike the real kernel, the in-memory
    /// table never refuses a creation, so the create-failure branch of the
    /// load-time error taxonomy does not arise in this model; element
    /// updates keep their fallibility.
    pub fn create(&mut self, def: MapDef) -> (fd: u32)
        requires
            old(self).maps@.len() < u32::MAX,
        ensures
            fd as int == old(self).maps@.len(),
            final(self).maps@ == old(self).maps@.push((KernelMap { def, element_zero: None })),
    {
        let fd = self.maps.len() as u32;
        self.maps.push(KernelMap { def, element_zero: None });
        fd
    }

    /// Write a value into element zero of the map behind `fd`. The kernel
    /// accepts the update only for a known handle and a value of exactly the
    /// map's declared value size; otherwise it reports `EINVAL` and the
    /// table is unchanged.
    pub fn update_elem_zero(&mut self, fd: u32, value: &Vec<u8>) -> (r: Result<(), u32>)
        ensures
            r is Ok <==> (fd as int) < old(self).maps@.len()
                && value@.len() == old(self).maps@[fd as int].def.value_size,
            r is Ok ==> final(self).maps@.len() == old(self).maps@.len()
                && (forall|j: int|
                    0 <= j < old(self).maps@.len() && j != fd as int
                        ==> final(self).maps@[j] == old(self).maps@[j])
                && final(self).maps@[fd as int].def == old(self).maps@[fd as int].def
                && (match final(self).maps@[fd as int].element_zero {
                    Some(v) => v@ == value@,
                    None => false,
                }),
            r is Err ==> *final(self) == *old(self) && r == Err::<(), u32>(EINVAL),
    {
        let n = self.maps.len();
        if (fd as usize) < n {
            let idx = fd as usize;
            if value.len() == self.maps[idx].def.value_size as usize {
                let stored = copy_bytes(value);
                let slot = &mut self.maps[idx];
                slot.element_zero = Some(stored);
                Ok(())
            } else {
                Err(EINVAL)
            }
        } else {
            Err(EINVAL)
        }
    }
}

/// A by-value copy of a byte buffer, used to hand the kernel model its own
/// copy of a map's initial data.
fn copy_bytes(v: &Vec<u8>) -> (r: Vec<u8>)
    ensures
        r@ == v@,
{
    let mut out: Vec<u8> = Vec::new();
    let mut i: usize = 0;
    while i < v.len()
        invariant
            i <= v@.len(),
            out@ == v@.subrange(0, i as int),
        decreases v@.len() - i,
    {
        out.push(v[i]);
        proof {
            assert(out@ =~= v@.subrange(0, i + 1 as int));
        }
        i = i + 1;
    }
    proof {
        assert(out@ =~= v@);
    }
    out
}

} // verus!
