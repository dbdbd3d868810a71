//! The virtual address space of a user program.
//!
//! An address space maps regions of memory at chosen addresses, each with its
//! own rights. The kernel never follows an address that a user program hands
//! it. It asks the address space for a copy of the bytes, and the address space
//! gives none unless the whole range is mapped with the rights asked for.

use vstd::prelude::*;

verus! {

/// One past the highest address.
pub open spec fn address_limit() -> int {
    0x1_0000_0000_0000_0000
}

/// The rights with which a region is mapped, or which an access needs.
#[derive(Clone, Copy, Debug, PartialEq, Eq, Structural)]
pub struct Perms {
    pub read: bool,
    pub write: bool,
    pub execute: bool,
    /// Whether code running in user mode may use the region.
    pub user: bool,
}

impl Perms {
    /// Whether a region mapped with these rights may be used in a way that
    /// needs `need`: every right that `need` names is among them.
    pub open spec fn covers(self, need: Perms) -> bool {
        &&& need.read ==> self.read
        &&& need.write ==> self.write
        &&& need.execute ==> self.execute
        &&& need.user ==> self.user
    }

    /// What a user program needs to read data.
    pub open spec fn spec_user_read() -> Perms {
        Perms { read: true, write: false, execute: false, user: true }
    }

    /// What a user program needs to fetch an instruction.
    pub open spec fn spec_user_execute() -> Perms {
        Perms { read: false, write: false, execute: true, user: true }
    }

    /// The rights that a user program needs to read data.
    pub fn user_read() -> (p: Perms)
        ensures
            p == Perms::spec_user_read(),
    {
        Perms { read: true, write: false, execute: false, user: true }
    }

    /// The rights that a user program needs to fetch an instruction.
    pub fn user_execute() -> (p: Perms)
        ensures
            p == Perms::spec_user_execute(),
    {
        Perms { read: false, write: false, execute: true, user: true }
    }

    /// Whether these rights include every right that `need` names.
    pub fn allows(&self, need: Perms) -> (ok: bool)
        ensures
            ok == self.covers(need),
    {
        (!need.read || self.read) && (!need.write || self.write) && (!need.execute
            || self.execute) && (!need.user || self.user)
    }
}

/// What an address space holds at one mapped address.
#[derive(Clone, Copy, Debug, PartialEq, Eq, Structural)]
pub struct MappedByte {
    pub value: u8,
    pub perms: Perms,
}

/// Why an address space refuses a request.
#[derive(Clone, Copy, Debug, PartialEq, Eq, Structural)]
pub enum VmError {
    /// The region would reach past the highest address.
    OutOfRange,
    /// The region would cover an address that is mapped already.
    Overlap,
    /// Some address of the range is not mapped, or not with the rights needed.
    AccessDenied,
}

/// What mapping `data` at `base` with the rights `perms` puts into an address
/// space: byte `i` of `data` at address `base + i`.
pub open spec fn image(base: int, data: Seq<u8>, perms: Perms) -> Map<int, MappedByte> {
    Map::new(
        |a: int| base <= a < base + data.len(),
        |a: int| MappedByte { value: data[a - base], perms },
    )
}

/// Whether some address of the `len` addresses from `base` on is mapped in `mem`.
pub open spec fn overlaps(mem: Map<int, MappedByte>, base: int, len: int) -> bool {
    exists|a: int| base <= a < base + len && #[trigger] mem.dom().contains(a)
}

/// Whether each of the `len` addresses from `addr` on is mapped in `mem` with
/// rights that cover `need`.
pub open spec fn accessible(mem: Map<int, MappedByte>, addr: int, len: int, need: Perms) -> bool {
    forall|a: int|
        addr <= a < addr + len ==> #[trigger] mem.dom().contains(a) && mem[a].perms.covers(need)
}

/// The `len` bytes that `mem` holds from `addr` on.
pub open spec fn contents(mem: Map<int, MappedByte>, addr: int, len: int) -> Seq<u8> {
    Seq::new(len as nat, |i: int| mem[addr + i].value)
}

/// Why `len` bytes cannot be mapped at `base` in `mem`, if they cannot.
pub open spec fn map_refusal(mem: Map<int, MappedByte>, base: int, len: int) -> Option<VmError> {
    if base + len > address_limit() {
        Some(VmError::OutOfRange)
    } else if overlaps(mem, base, len) {
        Some(VmError::Overlap)
    } else {
        None
    }
}

/// What has been mapped can be read back: once `data` is mapped at `base`,
/// every part of it is accessible with each of the rights it was mapped with,
/// and the address space holds there exactly the bytes of `data`.
pub proof fn lemma_map_then_read(
    mem: Map<int, MappedByte>,
    base: int,
    data: Seq<u8>,
    perms: Perms,
    need: Perms,
    offset: int,
    len: int,
)
    requires
        perms.covers(need),
        0 <= offset,
        0 <= len,
        offset + len <= data.len(),
    ensures
        ({
            let after = mem.union_prefer_right(image(base, data, perms));
            &&& accessible(after, base + offset, len, need)
            &&& contents(after, base + offset, len) == data.subrange(offset, offset + len)
        }),
{
    let after = mem.union_prefer_right(image(base, data, perms));
    assert forall|a: int| base + offset <= a < base + offset + len implies #[trigger] after.dom().contains(
        a,
    ) && after[a].perms.covers(need) by {
        assert(image(base, data, perms).dom().contains(a));
    }
    let read = contents(after, base + offset, len);
    let part = data.subrange(offset, offset + len);
    assert forall|i: int| 0 <= i < len implies #[trigger] read[i] == part[i] by {
        assert(image(base, data, perms).dom().contains(base + offset + i));
    }
    assert(read =~= part);
}

/// A region of memory mapped at `base`.
#[derive(Debug)]
struct Region {
    base: u64,
    data: Vec<u8>,
    perms: Perms,
}

impl Region {
    spec fn covers(self, addr: int) -> bool {
        self.base <= addr < self.base + self.data@.len()
    }

    spec fn cell(self, addr: int) -> MappedByte {
        MappedByte { value: self.data@[addr - self.base], perms: self.perms }
    }

    spec fn meets(self, base: int, len: int) -> bool {
        exists|a: int| base <= a < base + len && #[trigger] self.covers(a)
    }
}

/// What the regions hold at `addr`. Where two regions cover an address the
/// later one counts; an address space never holds two such regions.
spec fn find(regions: Seq<Region>, addr: int) -> Option<MappedByte>
    decreases regions.len(),
{
    if regions.len() == 0 {
        None
    } else if regions.last().covers(addr) {
        Some(regions.last().cell(addr))
    } else {
        find(regions.drop_last(), addr)
    }
}

proof fn lemma_find_mapped(regions: Seq<Region>, addr: int)
    ensures
        find(regions, addr) is Some <==> exists|i: int|
            0 <= i < regions.len() && (#[trigger] regions[i]).covers(addr),
    decreases regions.len(),
{
    if regions.len() > 0 {
        let front = regions.drop_last();
        lemma_find_mapped(front, addr);
        if regions.last().covers(addr) {
            assert(regions[regions.len() - 1].covers(addr));
        } else if find(front, addr) is Some {
            let i = choose|i: int| 0 <= i < front.len() && (#[trigger] front[i]).covers(addr);
            assert(regions[i].covers(addr));
        } else {
            assert forall|i: int| 0 <= i < regions.len() implies !(#[trigger] regions[i]).covers(
                addr,
            ) by {
                if i < front.len() {
                    assert(front[i] == regions[i]);
                }
            }
        }
    }
}

/// The isolated virtual address space of one user program.
#[derive(Debug)]
pub struct AddressSpace {
    regions: Vec<Region>,
}

impl View for AddressSpace {
    type V = Map<int, MappedByte>;

    /// The mapped addresses, each with the byte and the rights found there.
    closed spec fn view(&self) -> Map<int, MappedByte> {
        Map::new(
            |a: int| 0 <= a < address_limit() && find(self.regions@, a) is Some,
            |a: int| find(self.regions@, a).unwrap(),
        )
    }
}

impl AddressSpace {
    /// An address space in which nothing is mapped.
    pub fn new() -> (space: AddressSpace)
        ensures
            space@ == Map::<int, MappedByte>::empty(),
    {
        let space = AddressSpace { regions: Vec::new() };
        assert(space@ =~= Map::<int, MappedByte>::empty());
        space
    }

    /// What is mapped at `addr`, if anything.
    pub fn lookup(&self, addr: u64) -> (found: Option<MappedByte>)
        ensures
            found is Some <==> self@.dom().contains(addr as int),
            found matches Some(cell) ==> cell == self@[addr as int],
    {
        let mut i: usize = self.regions.len();
        assert(self.regions@.take(i as int) =~= self.regions@);
        while i > 0
            invariant
                i <= self.regions@.len(),
                find(self.regions@, addr as int) == find(self.regions@.take(i as int), addr as int),
            decreases i,
        {
            let ghost upto = self.regions@.take(i as int);
            i -= 1;
            let region = &self.regions[i];
            proof {
                assert(upto.last() == self.regions@[i as int]);
                assert(upto.drop_last() =~= self.regions@.take(i as int));
            }
            if region.base <= addr && addr - region.base < region.data.len() as u64 {
                return Some(
                    MappedByte {
                        value: region.data[(addr - region.base) as usize],
                        perms: region.perms,
                    },
                );
            }
        }
        None
    }

    /// Maps `data` at `base` with the rights `perms`: byte `i` of `data` is then
    /// found at address `base + i`.
    ///
    /// The request is refused, and the address space stays as it is, where the
    /// region would reach past the highest address (`OutOfRange`) and else
    /// where one of its addresses is mapped already (`Overlap`).
    pub fn map(&mut self, base: u64, data: Vec<u8>, perms: Perms) -> (result: Result<(), VmError>)
        ensures
            result == match map_refusal(old(self)@, base as int, data@.len() as int) {
                Some(e) => Err::<(), VmError>(e),
                None => Ok(()),
            },
            final(self)@ == if result is Ok {
                old(self)@.union_prefer_right(image(base as int, data@, perms))
            } else {
                old(self)@
            },
    {
        let len: usize = data.len();
        if len > 0 && (len - 1) as u64 > u64::MAX - base {
            return Err(VmError::OutOfRange);
        }
        let mut i: usize = 0;
        while i < self.regions.len()
            invariant
                i <= self.regions@.len(),
                len == data@.len(),
                base + len <= address_limit(),
                forall|j: int| 0 <= j < i ==> !(#[trigger] self.regions@[j]).meets(base as int, len as int),
            decreases self.regions@.len() - i,
        {
            let region = &self.regions[i];
            let hit = if base >= region.base {
                len > 0 && base - region.base < region.data.len() as u64
            } else {
                region.data.len() > 0 && region.base - base < len as u64
            };
            if hit {
                proof {
                    let a = if base >= region.base {
                        base as int
                    } else {
                        region.base as int
                    };
                    assert(self.regions@[i as int].covers(a));
                    lemma_find_mapped(self.regions@, a);
                    assert(self@.dom().contains(a));
                }
                return Err(VmError::Overlap);
            }
            i += 1;
        }
        proof {
            assert forall|a: int| base <= a < base + len implies !self@.dom().contains(a) by {
                lemma_find_mapped(self.regions@, a);
                if self@.dom().contains(a) {
                    let j = choose|j: int|
                        0 <= j < self.regions@.len() && (#[trigger] self.regions@[j]).covers(a);
                    assert(self.regions@[j].meets(base as int, len as int));
                }
            }
        }
        let ghost before = self.regions@;
        let ghost bytes = data@;
        let region = Region { base, data, perms };
        self.regions.push(region);
        proof {
            assert(self.regions@.last() == region);
            assert(self.regions@.drop_last() =~= before);
            assert(self@ =~= old(self)@.union_prefer_right(image(base as int, bytes, perms)));
        }
        Ok(())
    }

    /// Copies the `len` bytes from `addr` on out of the address space.
    ///
    /// The copy is made only where each of these addresses is mapped with
    /// rights that cover `need`. Otherwise the request is refused with
    /// `AccessDenied` and nothing is copied.
    pub fn read_bytes(&self, addr: u64, len: u64, need: Perms) -> (result: Result<Vec<u8>, VmError>)
        ensures
            result is Ok <==> accessible(self@, addr as int, len as int, need),
            result matches Ok(bytes) ==> bytes@ == contents(self@, addr as int, len as int),
            result matches Err(e) ==> e == VmError::AccessDenied,
    {
        let mut bytes: Vec<u8> = Vec::new();
        let mut i: u64 = 0;
        while i < len
            invariant
                i <= len,
                bytes@.len() == i,
                accessible(self@, addr as int, i as int, need),
                forall|j: int| 0 <= j < i ==> bytes@[j] == self@[addr + j].value,
            decreases len - i,
        {
            if addr > u64::MAX - i {
                proof {
                    assert(!self@.dom().contains(addr + i));
                }
                return Err(VmError::AccessDenied);
            }
            match self.lookup(addr + i) {
                Some(cell) => {
                    if !cell.perms.allows(need) {
                        proof {
                            assert(self@.dom().contains(addr + i));
                        }
                        return Err(VmError::AccessDenied);
                    }
                    bytes.push(cell.value);
                    assert forall|a: int| addr <= a < addr + i + 1 implies #[trigger] self@.dom().contains(
                        a,
                    ) && self@[a].perms.covers(need) by {
                        if a < addr + i {
                            assert(accessible(self@, addr as int, i as int, need));
                        }
                    }
                    assert(accessible(self@, addr as int, i + 1, need));
                },
                None => {
                    return Err(VmError::AccessDenied);
                },
            }
            i += 1;
        }
        assert(bytes@ =~= contents(self@, addr as int, len as int));
        Ok(bytes)
    }

    /// Whether `addr` is mapped with rights that cover `need`.
    pub fn is_mapped(&self, addr: u64, need: Perms) -> (yes: bool)
        ensures
            yes == accessible(self@, addr as int, 1, need),
    {
        match self.lookup(addr) {
            Some(cell) => cell.perms.allows(need),
            None => false,
        }
    }
}

} // verus!
