use vstd::prelude::*;

verus! {

/// Header offset of the memory-bank-controller identifier.
pub const MBC_ID_OFFSET: usize = 0x147;

/// The controller kind that a header identifier selects:
/// 1 (MBC1) for identifiers 1 to 3, 0 (ROM only) for anything else.
pub open spec fn mbc_kind(id: u8) -> u8 {
    if 1 <= id <= 3 {
        1
    } else {
        0
    }
}

/// A cartridge image and the kind of bank controller its header names.
pub struct Cartridge {
    pub data: Vec<u8>,
    pub mbc: u8,
}

impl Cartridge {
    /// The byte at offset `i` of the image, or 0 past its end.
    pub open spec fn byte(&self, i: int) -> u8 {
        if 0 <= i < self.data@.len() {
            self.data@[i]
        } else {
            0
        }
    }

    /// An empty, ROM-only cartridge.
    pub fn new() -> (r: Self)
        ensures
            r.data@.len() == 0,
            r.mbc == 0,
    {
        Cartridge { data: Vec::new(), mbc: 0 }
    }

    /// A cartridge holding `data`, its controller kind read from the header.
    pub fn from_bytes(data: Vec<u8>) -> (r: Self)
        ensures
            r.data@ == data@,
            r.mbc == mbc_kind(r.byte(MBC_ID_OFFSET as int)),
    {
        let mut cart = Cartridge { data, mbc: 0 };
        cart.set_mbc();
        cart
    }

    /// The byte at offset `i` of the image; 0 past its end.
    pub fn read(&self, i: usize) -> (r: u8)
        ensures
            r == self.byte(i as int),
    {
        if i < self.data.len() {
            self.data[i]
        } else {
            0
        }
    }

    /// Reads the controller kind from the header byte at 0x147. An identifier
    /// other than ROM only or MBC1 falls back to ROM only.
    pub fn set_mbc(&mut self)
        ensures
            final(self).data == old(self).data,
            final(self).mbc == mbc_kind(old(self).byte(MBC_ID_OFFSET as int)),
    {
        let mbc_id = self.read(MBC_ID_OFFSET);
        self.mbc = if 1 <= mbc_id && mbc_id <= 3 {
            1
        } else {
            0
        };
    }
}

} // verus!
