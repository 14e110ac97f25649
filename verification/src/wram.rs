//! Work RAM: 8 KiB on DMG; on CGB the upper 4 KiB window at 0xd000 can be
//! switched between seven banks through the SVBK register (0xff70).
//! 0xe000-0xfdff echoes 0xc000-0xddff.

use vstd::prelude::*;

verus! {

/// The CGB-only part of the work RAM: bank selection and the extra banks.
/// The DMG variant is `()`, which has no banks and ignores selection.
pub trait CgbExt: Sized {
    /// The bank that backs 0xd000-0xdfff: 1 is the common second bank,
    /// 2..=7 are the CGB-only banks.
    spec fn bank_spec(&self) -> u8;

    /// Contents of CGB-only bank `i` (bank `i + 2` of the machine).
    spec fn ext_bank_spec(&self, i: int) -> Seq<u8>;

    /// Type validity: the selected bank is in range.
    spec fn wf(&self) -> bool;

    /// The bank that writing `n` to SVBK selects.
    spec fn select_spec(&self, n: u8) -> u8;

    /// What reading SVBK returns.
    spec fn bank_reg_spec(&self) -> u8;

    fn new_ext() -> (r: Self)
        ensures
            r.wf(),
            r.bank_spec() == 1,
            forall|i: int, j: int|
                0 <= j < r.ext_bank_spec(i).len() ==> r.ext_bank_spec(i)[j] == 0,
    ;

    /// A valid extension that selects one of its own banks has a full
    /// 4 KiB of storage behind it.
    proof fn lemma_bank_len(&self)
        requires
            self.wf(),
        ensures
            self.bank_spec() >= 2 ==> self.ext_bank_spec(self.bank_spec() - 2).len() == 0x1000,
    ;

    fn select_bank(&mut self, n: u8)
        requires
            old(self).wf(),
        ensures
            final(self).wf(),
            final(self).bank_spec() == old(self).select_spec(n),
            forall|i: int| final(self).ext_bank_spec(i) == old(self).ext_bank_spec(i),
    ;

    fn get_bank(&self) -> (r: u8)
        ensures
            r == self.bank_reg_spec(),
    ;

    fn get8_post0xd000(&self, bank1: &[u8; 0x1000], addr: u16) -> (r: u8)
        requires
            self.wf(),
            addr < 0x1000,
        ensures
            r == if self.bank_spec() >= 2 {
                self.ext_bank_spec(self.bank_spec() - 2)[addr as int]
            } else {
                bank1@[addr as int]
            },
    ;

    fn set8_post0xd000(&mut self, bank1: &mut [u8; 0x1000], addr: u16, value: u8)
        requires
            old(self).wf(),
            addr < 0x1000,
        ensures
            final(self).wf(),
            final(self).bank_spec() == old(self).bank_spec(),
            final(self).bank_reg_spec() == old(self).bank_reg_spec(),
            if old(self).bank_spec() >= 2 {
                &&& final(self).ext_bank_spec(old(self).bank_spec() - 2)
                    == old(self).ext_bank_spec(old(self).bank_spec() - 2).update(addr as int, value)
                &&& final(bank1)@ == old(bank1)@
                &&& forall|i: int| i != old(self).bank_spec() - 2
                    ==> final(self).ext_bank_spec(i) == old(self).ext_bank_spec(i)
            } else {
                &&& final(bank1)@ == old(bank1)@.update(addr as int, value)
                &&& forall|i: int| final(self).ext_bank_spec(i) == old(self).ext_bank_spec(i)
            },
    ;
}

/// The seven switchable CGB banks and the SVBK latch.
pub struct WramCgbExtension {
    banks: [[u8; 0x1000]; 7],
    bank_index: u8,
}

impl CgbExt for WramCgbExtension {
    closed spec fn bank_spec(&self) -> u8 {
        self.bank_index
    }

    closed spec fn ext_bank_spec(&self, i: int) -> Seq<u8> {
        if 0 <= i < 7 {
            self.banks@[i]@
        } else {
            Seq::empty()
        }
    }

    closed spec fn wf(&self) -> bool {
        1 <= self.bank_index <= 7
    }

    /// Writing 0 selects bank 1; otherwise the low three bits select.
    open spec fn select_spec(&self, n: u8) -> u8 {
        if n & 0x7 == 0 {
            1
        } else {
            n & 0x7
        }
    }

    /// SVBK reads back the selected bank.
    open spec fn bank_reg_spec(&self) -> u8 {
        self.bank_spec()
    }

    proof fn lemma_bank_len(&self) {
    }

    fn new_ext() -> (r: Self) {
        WramCgbExtension { banks: [[0u8; 0x1000]; 7], bank_index: 1 }
    }

    fn select_bank(&mut self, n: u8) {
        let b = n & 0x7;
        proof {
            assert(n & 0x7 <= 7) by (bit_vector);
        }
        self.bank_index = if b == 0 {
            1
        } else {
            b
        };
    }

    fn get_bank(&self) -> (r: u8) {
        self.bank_index
    }

    fn get8_post0xd000(&self, bank1: &[u8; 0x1000], addr: u16) -> (r: u8) {
        if self.bank_index >= 2 {
            self.banks[(self.bank_index - 2) as usize][addr as usize]
        } else {
            bank1[addr as usize]
        }
    }

    fn set8_post0xd000(&mut self, bank1: &mut [u8; 0x1000], addr: u16, value: u8) {
        if self.bank_index >= 2 {
            self.banks[(self.bank_index - 2) as usize][addr as usize] = value;
        } else {
            bank1[addr as usize] = value;
        }
    }
}

impl CgbExt for () {
    open spec fn bank_spec(&self) -> u8 {
        1
    }

    open spec fn ext_bank_spec(&self, i: int) -> Seq<u8> {
        Seq::empty()
    }

    open spec fn wf(&self) -> bool {
        true
    }

    open spec fn select_spec(&self, n: u8) -> u8 {
        1
    }

    /// The SVBK register does not exist on DMG and reads back as 0xff.
    open spec fn bank_reg_spec(&self) -> u8 {
        0xff
    }

    proof fn lemma_bank_len(&self) {
    }

    fn new_ext() -> (r: Self) {
    }

    fn select_bank(&mut self, n: u8) {
    }

    fn get_bank(&self) -> (r: u8) {
        0xff
    }

    fn get8_post0xd000(&self, bank1: &[u8; 0x1000], addr: u16) -> (r: u8) {
        bank1[addr as usize]
    }

    fn set8_post0xd000(&mut self, bank1: &mut [u8; 0x1000], addr: u16, value: u8) {
        bank1[addr as usize] = value;
    }
}

/// Work RAM at 0xc000-0xdfff with its echo at 0xe000-0xfdff.
pub struct Wram<Ext: CgbExt> {
    banks: [[u8; 0x1000]; 2],
    cgb_ext: Ext,
}

/// The address a work-RAM access really hits: echo addresses alias
/// 0x2000 below.
pub open spec fn effective_addr(addr: u16) -> u16 {
    if addr >= 0xe000 {
        (addr - 0x2000) as u16
    } else {
        addr
    }
}

/// What reading `addr` from the work RAM returns.
pub open spec fn wram_read_spec<Ext: CgbExt>(w: Wram<Ext>, addr: u16) -> u8 {
    let a = effective_addr(addr);
    if a < 0xd000 {
        w.bank0_spec()[a - 0xc000]
    } else if w.cgb_spec().bank_spec() >= 2 {
        w.cgb_spec().ext_bank_spec(w.cgb_spec().bank_spec() - 2)[a - 0xd000]
    } else {
        w.bank1_spec()[a - 0xd000]
    }
}

impl<Ext: CgbExt> Wram<Ext> {
    /// Contents of the fixed bank at 0xc000-0xcfff.
    pub closed spec fn bank0_spec(&self) -> Seq<u8> {
        self.banks@[0]@
    }

    /// Contents of the common second bank at 0xd000-0xdfff.
    pub closed spec fn bank1_spec(&self) -> Seq<u8> {
        self.banks@[1]@
    }

    /// The CGB extension state.
    pub closed spec fn cgb_spec(&self) -> Ext {
        self.cgb_ext
    }

    pub open spec fn wf(&self) -> bool {
        self.cgb_spec().wf()
    }

    pub fn new() -> (r: Self)
        ensures
            r.wf(),
            r.cgb_spec().bank_spec() == 1,
            forall|a: u16| 0xc000 <= a <= 0xfdff ==> wram_read_spec(r, a) == 0,
    {
        let r = Wram { banks: [[0u8; 0x1000]; 2], cgb_ext: Ext::new_ext() };
        proof {
            r.cgb_spec().lemma_bank_len();
        }
        r
    }

    /// Write the SVBK register (0xff70).
    pub fn select_bank(&mut self, n: u8)
        requires
            old(self).wf(),
        ensures
            final(self).wf(),
            final(self).cgb_spec().bank_spec() == old(self).cgb_spec().select_spec(n),
            final(self).bank0_spec() == old(self).bank0_spec(),
            final(self).bank1_spec() == old(self).bank1_spec(),
            forall|i: int|
                final(self).cgb_spec().ext_bank_spec(i) == old(self).cgb_spec().ext_bank_spec(i),
    {
        self.cgb_ext.select_bank(n);
    }

    /// Read the SVBK register (0xff70).
    pub fn get_bank(&self) -> (r: u8)
        ensures
            r == self.cgb_spec().bank_reg_spec(),
    {
        self.cgb_ext.get_bank()
    }

    /// Read one byte of work RAM; 0xe000-0xfdff echoes 0xc000-0xddff.
    pub fn get8(&self, addr: u16) -> (r: u8)
        requires
            self.wf(),
            0xc000 <= addr <= 0xfdff,
        ensures
            r == wram_read_spec(*self, addr),
    {
        let a = if addr >= 0xe000 {
            addr - 0x2000
        } else {
            addr
        };
        if a < 0xd000 {
            self.banks[0][(a - 0xc000) as usize]
        } else {
            self.cgb_ext.get8_post0xd000(&self.banks[1], a - 0xd000)
        }
    }

    /// Write one byte of work RAM; 0xe000-0xfdff echoes 0xc000-0xddff.
    pub fn set8(&mut self, addr: u16, v: u8)
        requires
            old(self).wf(),
            0xc000 <= addr <= 0xfdff,
        ensures
            final(self).wf(),
            final(self).cgb_spec().bank_spec() == old(self).cgb_spec().bank_spec(),
            final(self).cgb_spec().bank_reg_spec() == old(self).cgb_spec().bank_reg_spec(),
            forall|a: u16| 0xc000 <= a <= 0xfdff ==>
                wram_read_spec(*final(self), a) == if effective_addr(a) == effective_addr(addr) {
                    v
                } else {
                    wram_read_spec(*old(self), a)
                },
    {
        let a = if addr >= 0xe000 {
            addr - 0x2000
        } else {
            addr
        };
        if a < 0xd000 {
            let mut bank0 = self.banks[0];
            bank0[(a - 0xc000) as usize] = v;
            self.banks[0] = bank0;
            proof {
                assert(self.bank0_spec() == old(self).bank0_spec().update(a - 0xc000, v));
                assert(self.bank1_spec() == old(self).bank1_spec());
            }
        } else {
            let mut bank1 = self.banks[1];
            self.cgb_ext.set8_post0xd000(&mut bank1, a - 0xd000, v);
            self.banks[1] = bank1;
            proof {
                assert(self.bank0_spec() == old(self).bank0_spec());
            }
        }
        proof {
            assert forall|b: u16| 0xc000 <= b <= 0xfdff implies wram_read_spec(*self, b)
                == if effective_addr(b) == effective_addr(addr) {
                    v
                } else {
                    wram_read_spec(*old(self), b)
                } by {
                old(self).cgb_spec().lemma_bank_len();
                self.cgb_spec().lemma_bank_len();
                let eb = effective_addr(b);
                let ea = effective_addr(addr);
                assert(0xc000 <= eb <= 0xdfff);
                assert(0xc000 <= ea <= 0xdfff);
                assert(ea == a);
                if ea < 0xd000 {
                    assert(self.bank1_spec() == old(self).bank1_spec());
                    assert(self.cgb_spec() == old(self).cgb_spec());
                    if eb < 0xd000 {
                        if eb == ea {
                            assert(wram_read_spec(*self, b) == v);
                        } else {
                            assert(wram_read_spec(*self, b) == wram_read_spec(*old(self), b));
                        }
                    } else {
                        assert(wram_read_spec(*self, b) == wram_read_spec(*old(self), b));
                    }
                } else {
                    assert(self.bank0_spec() == old(self).bank0_spec());
                    if eb < 0xd000 {
                        assert(wram_read_spec(*self, b) == wram_read_spec(*old(self), b));
                    } else if self.cgb_spec().bank_spec() >= 2 {
                        assert(self.cgb_spec().ext_bank_spec(self.cgb_spec().bank_spec() - 2)
                            == old(self).cgb_spec().ext_bank_spec(old(self).cgb_spec().bank_spec()
                                - 2).update(ea - 0xd000, v));
                        if eb == ea {
                            assert(wram_read_spec(*self, b) == v);
                        } else {
                            assert(wram_read_spec(*self, b) == wram_read_spec(*old(self), b));
                        }
                    } else {
                        assert(self.bank1_spec() == old(self).bank1_spec().update(ea - 0xd000, v));
                        if eb == ea {
                            assert(wram_read_spec(*self, b) == v);
                        } else {
                            assert(wram_read_spec(*self, b) == wram_read_spec(*old(self), b));
                        }
                    }
                }
            }
        }
    }
}

/// Echo RAM mirrors work RAM: reading anywhere in 0xe000-0xfdff returns
/// the byte 0x2000 below.
pub proof fn lemma_echo_mirror<Ext: CgbExt>(w: Wram<Ext>, addr: u16)
    requires
        0xe000 <= addr <= 0xfdff,
    ensures
        wram_read_spec(w, addr) == wram_read_spec(w, (addr - 0x2000) as u16),
{
}

} // verus!
