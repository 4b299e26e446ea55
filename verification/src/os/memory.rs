//! A copy of parts of the target's memory, by logical address.

use vstd::prelude::*;

verus! {

/// Why a read of the guest's memory gave no value.
#[derive(Clone, Copy, Debug, PartialEq, Eq, Structural)]
pub enum MemoryError {
    /// The copy holds no byte at the address. Whoever holds the target can
    /// add the page of that address and read again.
    Unmapped { address: u64 },
    /// The read goes past the last address.
    AddressOverflow,
    /// Values of this many bytes are not read.
    UnsupportedSize { size: u64 },
}

/// A run of bytes of the guest's memory.
#[derive(Debug)]
pub struct Region {
    base: u64,
    data: Vec<u8>,
}

impl Region {
    /// The byte of the region at `address`.
    pub open spec fn spec_byte(&self, address: int) -> Option<u8> {
        if self.spec_base() <= address < self.spec_base() + self.spec_data().len() {
            Some(self.spec_data()[address - self.spec_base()])
        } else {
            None
        }
    }

    /// The address of the first byte.
    pub closed spec fn spec_base(&self) -> int {
        self.base as int
    }

    /// The bytes.
    pub closed spec fn spec_data(&self) -> Seq<u8> {
        self.data@
    }
}

/// The byte at `address` in the first of `regions` that holds one there.
pub open spec fn byte_in(regions: Seq<Region>, address: int) -> Option<u8>
    decreases regions.len(),
{
    if regions.len() == 0 {
        None
    } else {
        match regions[0].spec_byte(address) {
            Some(byte) => Some(byte),
            None => byte_in(regions.skip(1), address),
        }
    }
}

/// Adding a region at the end changes nothing where a byte was held, and
/// shows the new region's bytes elsewhere.
proof fn lemma_byte_in_push(regions: Seq<Region>, region: Region, address: int)
    ensures
        byte_in(regions.push(region), address) == match byte_in(regions, address) {
            Some(byte) => Some(byte),
            None => region.spec_byte(address),
        },
    decreases regions.len(),
{
    let more = regions.push(region);
    if regions.len() == 0 {
        assert(more.skip(1) =~= Seq::<Region>::empty());
        assert(more[0] == region);
    } else {
        assert(more[0] == regions[0]);
        assert(more.skip(1) =~= regions.skip(1).push(region));
        lemma_byte_in_push(regions.skip(1), region, address);
    }
}

/// A copy of parts of the guest's memory.
#[derive(Debug)]
pub struct GuestMemory {
    regions: Vec<Region>,
}

/// The value of two little-endian halves of `half` bits each, or the first
/// error of the two reads.
pub open spec fn join_le(
    low: Result<int, MemoryError>,
    high: Result<int, MemoryError>,
    scale: int,
) -> Result<int, MemoryError> {
    match low {
        Err(e) => Err(e),
        Ok(l) => match high {
            Err(e) => Err(e),
            Ok(h) => Ok(l + scale * h),
        },
    }
}

/// The value of two big-endian halves, or the first error of the two reads.
pub open spec fn join_be(
    first: Result<int, MemoryError>,
    second: Result<int, MemoryError>,
    scale: int,
) -> Result<int, MemoryError> {
    match first {
        Err(e) => Err(e),
        Ok(h) => match second {
            Err(e) => Err(e),
            Ok(l) => Ok(scale * h + l),
        },
    }
}

impl GuestMemory {
    /// The regions, in the order in which they were added.
    pub closed spec fn regions(&self) -> Seq<Region> {
        self.regions@
    }

    /// The byte at `address`, if the copy holds one.
    pub open spec fn spec_byte(&self, address: int) -> Option<u8> {
        byte_in(self.regions(), address)
    }

    /// The value of the byte at `address`.
    pub open spec fn spec_u8(&self, address: int) -> Result<int, MemoryError> {
        if address > u64::MAX {
            Err(MemoryError::AddressOverflow)
        } else {
            match self.spec_byte(address) {
                Some(byte) => Ok(byte as int),
                None => Err(MemoryError::Unmapped { address: address as u64 }),
            }
        }
    }

    /// The little-endian value of the 2 bytes at `address`.
    pub open spec fn spec_u16(&self, address: int) -> Result<int, MemoryError> {
        join_le(self.spec_u8(address), self.spec_u8(address + 1), 0x100)
    }

    /// The little-endian value of the 4 bytes at `address`.
    pub open spec fn spec_u32(&self, address: int) -> Result<int, MemoryError> {
        join_le(self.spec_u16(address), self.spec_u16(address + 2), 0x1_0000)
    }

    /// The little-endian value of the 8 bytes at `address`.
    pub open spec fn spec_u64(&self, address: int) -> Result<int, MemoryError> {
        join_le(self.spec_u32(address), self.spec_u32(address + 4), 0x1_0000_0000)
    }

    /// The big-endian value of the 8 bytes at `address`.
    pub open spec fn spec_u64_be(&self, address: int) -> Result<int, MemoryError> {
        join_be(
            join_be(
                join_be(self.spec_u8(address), self.spec_u8(address + 1), 0x100),
                join_be(self.spec_u8(address + 2), self.spec_u8(address + 3), 0x100),
                0x1_0000,
            ),
            join_be(
                join_be(self.spec_u8(address + 4), self.spec_u8(address + 5), 0x100),
                join_be(self.spec_u8(address + 6), self.spec_u8(address + 7), 0x100),
                0x1_0000,
            ),
            0x1_0000_0000,
        )
    }

    /// The little-endian value of the `size` bytes at `address`, for a size
    /// of 1, 2, 4 or 8.
    pub open spec fn spec_read(&self, address: int, size: u64) -> Result<int, MemoryError> {
        if size == 1 {
            self.spec_u8(address)
        } else if size == 2 {
            self.spec_u16(address)
        } else if size == 4 {
            self.spec_u32(address)
        } else if size == 8 {
            self.spec_u64(address)
        } else {
            Err(MemoryError::UnsupportedSize { size })
        }
    }

    /// The bytes from `address` up to the first zero byte, without it.
    pub open spec fn spec_cstring(&self, address: int) -> Result<Seq<u8>, MemoryError>
        decreases u64::MAX + 1 - address,
    {
        if address > u64::MAX || address < 0 {
            Err(MemoryError::AddressOverflow)
        } else {
            match self.spec_byte(address) {
                None => Err(MemoryError::Unmapped { address: address as u64 }),
                Some(byte) => if byte == 0 {
                    Ok(Seq::empty())
                } else {
                    match self.spec_cstring(address + 1) {
                        Ok(rest) => Ok(seq![byte] + rest),
                        Err(e) => Err(e),
                    }
                },
            }
        }
    }

    /// A copy that holds nothing.
    pub fn new() -> (memory: GuestMemory)
        ensures
            forall|address: int| memory.spec_byte(address) is None,
    {
        GuestMemory { regions: Vec::new() }
    }

    /// Adds the bytes `data` as they lie from the address `base` on. Where
    /// the copy held a byte already, that byte stays.
    pub fn map(&mut self, base: u64, data: Vec<u8>)
        ensures
            forall|address: int|
                #![trigger final(self).spec_byte(address)]
                final(self).spec_byte(address) == match old(self).spec_byte(address) {
                    Some(byte) => Some(byte),
                    None => if base <= address < base + data@.len() {
                        Some(data@[address - base])
                    } else {
                        None
                    },
                },
    {
        let region = Region { base, data };
        proof {
            assert forall|address: int|
                byte_in(self.regions@.push(region), address) == match byte_in(
                    self.regions@,
                    address,
                ) {
                    Some(byte) => Some(byte),
                    None => region.spec_byte(address),
                } by {
                lemma_byte_in_push(self.regions@, region, address);
            }
        }
        self.regions.push(region);
    }

    /// The byte at `address`.
    pub fn read_u8(&self, address: u64) -> (r: Result<u8, MemoryError>)
        ensures
            match r {
                Ok(value) => self.spec_u8(address as int) == Ok::<int, MemoryError>(value as int),
                Err(e) => self.spec_u8(address as int) == Err::<int, MemoryError>(e),
            },
    {
        let mut i: usize = 0;
        assert(self.regions@.skip(0) =~= self.regions@);
        while i < self.regions.len()
            invariant
                i <= self.regions.len(),
                byte_in(self.regions@, address as int) == byte_in(
                    self.regions@.skip(i as int),
                    address as int,
                ),
            decreases self.regions.len() - i,
        {
            let region = &self.regions[i];
            proof {
                let rest = self.regions@.skip(i as int);
                assert(rest[0] == self.regions@[i as int]);
                assert(rest.skip(1) =~= self.regions@.skip(i + 1));
            }
            if address >= region.base {
                let offset: u64 = address - region.base;
                if offset < region.data.len() as u64 {
                    return Ok(region.data[offset as usize]);
                }
            }
            i += 1;
        }
        assert(self.regions@.skip(self.regions@.len() as int).len() == 0);
        Err(MemoryError::Unmapped { address })
    }

    /// The byte at `distance` bytes after `address`.
    fn read_u8_after(&self, address: u64, distance: u64) -> (r: Result<u8, MemoryError>)
        ensures
            match r {
                Ok(value) => self.spec_u8(address + distance) == Ok::<int, MemoryError>(
                    value as int,
                ),
                Err(e) => self.spec_u8(address + distance) == Err::<int, MemoryError>(e),
            },
    {
        match address.checked_add(distance) {
            Some(at) => self.read_u8(at),
            None => Err(MemoryError::AddressOverflow),
        }
    }

    /// The little-endian value of the 2 bytes at `address`.
    pub fn read_u16(&self, address: u64) -> (r: Result<u16, MemoryError>)
        ensures
            match r {
                Ok(value) => self.spec_u16(address as int) == Ok::<int, MemoryError>(value as int),
                Err(e) => self.spec_u16(address as int) == Err::<int, MemoryError>(e),
            },
    {
        let low: u8 = self.read_u8(address)?;
        let high: u8 = self.read_u8_after(address, 1)?;
        Ok(low as u16 + 0x100 * (high as u16))
    }

    /// The little-endian value of the 2 bytes at `distance` bytes after
    /// `address`.
    fn read_u16_after(&self, address: u64, distance: u64) -> (r: Result<u16, MemoryError>)
        ensures
            match r {
                Ok(value) => self.spec_u16(address + distance) == Ok::<int, MemoryError>(
                    value as int,
                ),
                Err(e) => self.spec_u16(address + distance) == Err::<int, MemoryError>(e),
            },
    {
        match address.checked_add(distance) {
            Some(at) => self.read_u16(at),
            None => Err(MemoryError::AddressOverflow),
        }
    }

    /// The little-endian value of the 4 bytes at `address`.
    pub fn read_u32(&self, address: u64) -> (r: Result<u32, MemoryError>)
        ensures
            match r {
                Ok(value) => self.spec_u32(address as int) == Ok::<int, MemoryError>(value as int),
                Err(e) => self.spec_u32(address as int) == Err::<int, MemoryError>(e),
            },
    {
        let low: u16 = self.read_u16(address)?;
        let high: u16 = self.read_u16_after(address, 2)?;
        Ok(low as u32 + 0x1_0000 * (high as u32))
    }

    /// The little-endian value of the 4 bytes at `distance` bytes after
    /// `address`.
    fn read_u32_after(&self, address: u64, distance: u64) -> (r: Result<u32, MemoryError>)
        ensures
            match r {
                Ok(value) => self.spec_u32(address + distance) == Ok::<int, MemoryError>(
                    value as int,
                ),
                Err(e) => self.spec_u32(address + distance) == Err::<int, MemoryError>(e),
            },
    {
        match address.checked_add(distance) {
            Some(at) => self.read_u32(at),
            None => Err(MemoryError::AddressOverflow),
        }
    }

    /// The little-endian value of the 8 bytes at `address`.
    pub fn read_u64(&self, address: u64) -> (r: Result<u64, MemoryError>)
        ensures
            match r {
                Ok(value) => self.spec_u64(address as int) == Ok::<int, MemoryError>(value as int),
                Err(e) => self.spec_u64(address as int) == Err::<int, MemoryError>(e),
            },
    {
        let low: u32 = self.read_u32(address)?;
        let high: u32 = self.read_u32_after(address, 4)?;
        Ok(low as u64 + 0x1_0000_0000 * (high as u64))
    }

    /// The big-endian value of the 8 bytes at `address`.
    pub fn read_u64_be(&self, address: u64) -> (r: Result<u64, MemoryError>)
        ensures
            match r {
                Ok(value) => self.spec_u64_be(address as int) == Ok::<int, MemoryError>(
                    value as int,
                ),
                Err(e) => self.spec_u64_be(address as int) == Err::<int, MemoryError>(e),
            },
    {
        let b0: u64 = self.read_u8(address)? as u64;
        let b1: u64 = self.read_u8_after(address, 1)? as u64;
        let b2: u64 = self.read_u8_after(address, 2)? as u64;
        let b3: u64 = self.read_u8_after(address, 3)? as u64;
        let b4: u64 = self.read_u8_after(address, 4)? as u64;
        let b5: u64 = self.read_u8_after(address, 5)? as u64;
        let b6: u64 = self.read_u8_after(address, 6)? as u64;
        let b7: u64 = self.read_u8_after(address, 7)? as u64;
        let high: u64 = 0x1_0000 * (0x100 * b0 + b1) + (0x100 * b2 + b3);
        let low: u64 = 0x1_0000 * (0x100 * b4 + b5) + (0x100 * b6 + b7);
        Ok(0x1_0000_0000 * high + low)
    }

    /// The little-endian value of the `size` bytes at `address`, for a size
    /// of 1, 2, 4 or 8.
    pub fn read(&self, address: u64, size: u64) -> (r: Result<u64, MemoryError>)
        ensures
            match r {
                Ok(value) => self.spec_read(address as int, size) == Ok::<int, MemoryError>(
                    value as int,
                ),
                Err(e) => self.spec_read(address as int, size) == Err::<int, MemoryError>(e),
            },
    {
        if size == 1 {
            Ok(self.read_u8(address)? as u64)
        } else if size == 2 {
            Ok(self.read_u16(address)? as u64)
        } else if size == 4 {
            Ok(self.read_u32(address)? as u64)
        } else if size == 8 {
            self.read_u64(address)
        } else {
            Err(MemoryError::UnsupportedSize { size })
        }
    }

    /// The bytes from `address` up to the first zero byte, without it.
    pub fn read_cstring(&self, address: u64) -> (r: Result<Vec<u8>, MemoryError>)
        ensures
            match r {
                Ok(bytes) => self.spec_cstring(address as int) == Ok::<Seq<u8>, MemoryError>(
                    bytes@,
                ),
                Err(e) => self.spec_cstring(address as int) == Err::<Seq<u8>, MemoryError>(e),
            },
    {
        let mut bytes: Vec<u8> = Vec::new();
        let mut at: u64 = address;
        loop
            invariant
                address <= at,
                self.spec_cstring(address as int) == prepend(
                    bytes@,
                    self.spec_cstring(at as int),
                ),
            decreases u64::MAX - at,
        {
            let byte: u8 = match self.read_u8(at) {
                Ok(byte) => byte,
                Err(e) => {
                    return Err(e);
                },
            };
            if byte == 0 {
                assert(bytes@ + Seq::<u8>::empty() =~= bytes@);
                return Ok(bytes);
            }
            let ghost before = bytes@;
            bytes.push(byte);
            proof {
                let rest = self.spec_cstring(at + 1);
                match rest {
                    Ok(tail) => {
                        assert(before + (seq![byte] + tail) =~= before.push(byte) + tail);
                    },
                    Err(_) => {},
                }
            }
            if at == u64::MAX {
                return Err(MemoryError::AddressOverflow);
            }
            at += 1;
        }
    }
}

/// `bytes` before what `rest` holds, or the error that `rest` is.
pub open spec fn prepend(bytes: Seq<u8>, rest: Result<Seq<u8>, MemoryError>) -> Result<
    Seq<u8>,
    MemoryError,
> {
    match rest {
        Ok(tail) => Ok(bytes + tail),
        Err(e) => Err(e),
    }
}

} // verus!
