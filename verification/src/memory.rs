//! A storage region on the bus: a backing byte vector with a base address
//! and an access permission.

use vstd::prelude::*;

use crate::bus::Device;

verus! {

/// What the bus may do with a region. `Invalid` models the unusable hole:
/// reads return 0 and writes are ignored.
#[derive(Debug, Clone, Copy, PartialEq, Eq, Structural)]
pub enum Permission {
    Normal,
    ReadOnly,
    Invalid,
}

/// The mathematical value of a region: its base address, its bytes and its
/// permission.
pub struct MemV {
    pub base: int,
    pub data: Seq<u8>,
    pub perm: Permission,
}

/// A backing store that answers loads and stores for the address range
/// starting at `base`.
pub struct Memory {
    pub base: usize,
    pub memory: Vec<u8>,
    pub permission: Permission,
}

impl View for Memory {
    type V = MemV;

    open spec fn view(&self) -> MemV {
        MemV { base: self.base as int, data: self.memory@, perm: self.permission }
    }
}

/// A region is well formed when its range is non-empty and lies inside the
/// 16-bit address space.
pub open spec fn mem_wf(m: MemV) -> bool {
    &&& m.data.len() >= 1
    &&& m.base + m.data.len() <= 0x10000
}

/// What a load from a region returns: the backing byte for an in-range
/// address, 0 for the unusable hole, and failure outside the range.
pub open spec fn mem_load_s(m: MemV, addr: u16) -> Result<u8, ()> {
    match m.perm {
        Permission::Invalid => Ok(0u8),
        _ => {
            if m.base <= addr < m.base + m.data.len() {
                Ok(m.data[addr - m.base])
            } else {
                Err(())
            }
        },
    }
}

/// What a store leaves behind: an updated byte for a writable in-range
/// address, the region unchanged for read-only and unusable regions, and
/// failure for a writable region addressed outside its range.
pub open spec fn mem_store_s(m: MemV, addr: u16, value: u8) -> Result<MemV, ()> {
    match m.perm {
        Permission::Normal => {
            if m.base <= addr < m.base + m.data.len() {
                Ok(MemV { data: m.data.update(addr - m.base, value), ..m })
            } else {
                Err(())
            }
        },
        _ => Ok(m),
    }
}

impl Memory {
    /// Creates a region of `size` bytes at `base`, filled from `binary` and
    /// padded with zeroes; reads past the supplied image thus return 0.
    pub fn new(base: usize, size: usize, binary: Vec<u8>, perm: Permission) -> (r: Memory)
        requires
            1 <= size,
            base + size <= 0x10000,
            binary.len() <= size,
        ensures
            r@ == (MemV {
                base: base as int,
                data: binary@ + Seq::new((size - binary@.len()) as nat, |i: int| 0u8),
                perm,
            }),
            mem_wf(r@),
    {
        let mut memory = binary;
        let ghost orig = memory@;
        while memory.len() < size
            invariant
                memory@.len() <= size,
                memory@ == orig + Seq::new((memory@.len() - orig.len()) as nat, |i: int| 0u8),
            decreases size - memory.len(),
        {
            memory.push(0);
            proof {
                assert(memory@ =~= orig + Seq::new((memory@.len() - orig.len()) as nat, |i: int| 0u8));
            }
        }
        Memory { base, memory, permission: perm }
    }

    /// Creates an all-zero region of `size` bytes at `base`.
    pub fn new_empty(base: usize, size: usize, perm: Permission) -> (r: Memory)
        requires
            1 <= size,
            base + size <= 0x10000,
        ensures
            r@ == (MemV {
                base: base as int,
                data: Seq::new(size as nat, |i: int| 0u8),
                perm,
            }),
            mem_wf(r@),
    {
        let mut memory: Vec<u8> = Vec::new();
        while memory.len() < size
            invariant
                memory@.len() <= size,
                memory@ == Seq::new(memory@.len(), |i: int| 0u8),
            decreases size - memory.len(),
        {
            memory.push(0);
            proof {
                assert(memory@ =~= Seq::new(memory@.len(), |i: int| 0u8));
            }
        }
        Memory { base, memory, permission: perm }
    }

    /// Reads one byte, as `mem_load_s` describes.
    pub fn load(&self, addr: u16) -> (r: Result<u8, ()>)
        ensures
            r == mem_load_s(self@, addr),
    {
        match self.permission {
            Permission::Invalid => Ok(0),
            _ => {
                if self.base <= addr as usize && addr as usize - self.base < self.memory.len() {
                    Ok(self.memory[addr as usize - self.base])
                } else {
                    Err(())
                }
            },
        }
    }

    /// Writes one byte, as `mem_store_s` describes.
    pub fn store(&mut self, addr: u16, value: u8) -> (r: Result<(), ()>)
        ensures
            match mem_store_s(old(self)@, addr, value) {
                Ok(m) => r is Ok && final(self)@ == m,
                Err(()) => r is Err && final(self)@ == old(self)@,
            },
    {
        match self.permission {
            Permission::Normal => {
                if self.base <= addr as usize && addr as usize - self.base < self.memory.len() {
                    let i = addr as usize - self.base;
                    self.memory.set(i, value);
                    Ok(())
                } else {
                    Err(())
                }
            },
            _ => Ok(()),
        }
    }
}

impl Device for Memory {
    fn load(&self, addr: u16) -> Result<u8, ()> {
        Memory::load(self, addr)
    }

    fn store(&mut self, addr: u16, value: u8) -> Result<(), ()> {
        Memory::store(self, addr, value)
    }

    fn range(&self) -> (u16, u16) {
        if self.base > 0xffff || self.memory.len() == 0 || self.memory.len() > 0x10000 - self.base {
            (0, 0)
        } else {
            let start = self.base as u16;
            let end = (self.base + self.memory.len() - 1) as u16;
            (start, end)
        }
    }
}

} // verus!
