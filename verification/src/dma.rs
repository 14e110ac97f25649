//! OAM DMA: a write to 0xff46 with value v requests a 160-byte burst copy
//! from v<<8 into the object attribute memory at 0xfe00.

use vstd::prelude::*;

verus! {

/// A pending block copy over the bus: `len` bytes from `src` to `dst`.
pub struct DmaRequest {
    src: u16,
    dst: u16,
    len: u16,
}

impl DmaRequest {
    pub closed spec fn src_spec(&self) -> u16 {
        self.src
    }

    pub closed spec fn dst_spec(&self) -> u16 {
        self.dst
    }

    pub closed spec fn len_spec(&self) -> u16 {
        self.len
    }

    pub fn new(src: u16, dst: u16, len: u16) -> (r: DmaRequest)
        ensures
            r.src_spec() == src,
            r.dst_spec() == dst,
            r.len_spec() == len,
    {
        DmaRequest { src, dst, len }
    }

    pub fn src(&self) -> (r: u16)
        ensures
            r == self.src_spec(),
    {
        self.src
    }

    pub fn dst(&self) -> (r: u16)
        ensures
            r == self.dst_spec(),
    {
        self.dst
    }

    pub fn len(&self) -> (r: u16)
        ensures
            r == self.len_spec(),
    {
        self.len
    }
}

/// The OAM DMA engine: armed by a write to 0xff46, it emits one request
/// on the next step and completes atomically.
pub struct Dma {
    pub on: bool,
    pub src: u8,
}

impl Dma {
    pub fn new() -> (r: Dma)
        ensures
            !r.on,
            r.src == 0,
    {
        Dma { on: false, src: 0 }
    }

    /// Write the DMA register (0xff46): arm a copy from value<<8.
    pub fn start(&mut self, value: u8)
        ensures
            final(self).on,
            final(self).src == value,
    {
        self.on = true;
        self.src = value;
    }

    /// Read the DMA register (0xff46): the last source page written.
    pub fn read(&self) -> (r: u8)
        ensures
            r == self.src,
    {
        self.src
    }

    /// Emit the armed request, if any: 0xa0 bytes from src<<8 to 0xfe00.
    pub fn step(&mut self, _cycles: usize) -> (r: Option<DmaRequest>)
        ensures
            !final(self).on,
            final(self).src == old(self).src,
            match r {
                Some(req) => old(self).on && req.src_spec() == (old(self).src as u16) << 8
                    && req.dst_spec() == 0xfe00 && req.len_spec() == 0xa0,
                None => !old(self).on,
            },
    {
        if self.on {
            self.on = false;
            Some(DmaRequest::new((self.src as u16) << 8, 0xfe00, 0xa0))
        } else {
            None
        }
    }
}

} // verus!
