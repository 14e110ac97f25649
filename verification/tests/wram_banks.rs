//! Work-RAM banking and echo tests.

use rgy::wram::{Wram, WramCgbExtension};

#[test]
fn test_default_bank() {
    let m = Wram::<WramCgbExtension>::new();
    assert_eq!(m.get_bank(), 1);
}

#[test]
fn test_select_bank() {
    let mut m = Wram::<WramCgbExtension>::new();

    // fill bank 0
    for i in 0..0x1000 {
        m.set8(0xc000 + i, 0xf)
    }

    // fill bank 1-7
    for b in 1..8 {
        m.select_bank(b);
        for i in 0..0x1000 {
            m.set8(0xd000 + i, b)
        }
    }

    // check each bank
    for b in 1..8 {
        m.select_bank(b);
        for i in 0..0x1000 {
            assert_eq!(m.get8(0xc000 + i), 0xf);
            assert_eq!(m.get8(0xd000 + i), b);
        }
    }
}

#[test]
fn test_no_select_bank() {
    let mut m = Wram::<()>::new();

    // fill bank 0
    for i in 0..0x1000 {
        m.set8(0xc000 + i, 0xf)
    }

    // fill bank 1-7
    for b in 1..8 {
        m.select_bank(b);
        for i in 0..0x1000 {
            m.set8(0xd000 + i, b)
        }
    }

    // check each bank (no bank switch, so always 7)
    for b in 1..8 {
        m.select_bank(b);
        for i in 0..0x1000 {
            assert_eq!(m.get8(0xc000 + i), 0xf);
            assert_eq!(m.get8(0xd000 + i), 7);
        }
    }
}

#[test]
fn test_mirror() {
    let mut m = Wram::<WramCgbExtension>::new();

    for v in 1..4 {
        for i in 0..0x1dff {
            m.set8(0xc000 + i, v);
        }
        for i in 0..0x1dff {
            assert_eq!(m.get8(0xe000 + i), v);
        }
    }
}
