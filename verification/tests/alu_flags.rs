use gameboy::z80::alu::{
    add16, add8, add_sp, and8, bit8, ccf, cpl8, daa8, dec8, inc8, or8, res8, rl8, rlc8, rr8, rrc8,
    scf, set8, sla8, sra8, srl8, sub8, swap8, xor8,
};
use gameboy::z80::registers::Flags;

fn flags(zero: bool, subtract: bool, half_carry: bool, carry: bool) -> Flags {
    Flags { zero, subtract, half_carry, carry }
}

fn bcd(n: u32) -> u8 {
    (((n / 10) % 10) * 16 + n % 10) as u8
}

#[test]
fn add_matches_wide_arithmetic_for_every_operand_pair() {
    for a in 0..=255u32 {
        for v in 0..=255u32 {
            for c in 0..=1u32 {
                let (r, f) = add8(a as u8, v as u8, c == 1);
                let sum = a + v + c;
                assert_eq!(r as u32, sum & 0xff);
                assert_eq!(f, flags(sum & 0xff == 0, false, (a & 15) + (v & 15) + c > 15, sum > 255));
            }
        }
    }
}

#[test]
fn sub_matches_wide_arithmetic_for_every_operand_pair() {
    for a in 0..=255i32 {
        for v in 0..=255i32 {
            for c in 0..=1i32 {
                let (r, f) = sub8(a as u8, v as u8, c == 1);
                let diff = a - v - c;
                assert_eq!(r as i32, diff & 0xff);
                assert_eq!(
                    f,
                    flags(diff & 0xff == 0, true, (a & 15) < (v & 15) + c, a < v + c)
                );
                if c == 0 {
                    assert_eq!(f.zero, a == v);
                }
            }
        }
    }
}

#[test]
fn logic_operations_set_their_fixed_flags() {
    for a in 0..=255u8 {
        for v in [0x00u8, 0x0f, 0x55, 0xaa, 0xf0, 0xff, a] {
            assert_eq!(and8(a, v), (a & v, flags(a & v == 0, false, true, false)));
            assert_eq!(or8(a, v), (a | v, flags(a | v == 0, false, false, false)));
            assert_eq!(xor8(a, v), (a ^ v, flags(a ^ v == 0, false, false, false)));
        }
    }
}

#[test]
fn inc_and_dec_keep_the_carry() {
    for v in 0..=255u8 {
        for carry in [false, true] {
            let before = flags(true, true, true, carry);
            assert_eq!(
                inc8(v, before),
                (v.wrapping_add(1), flags(v == 0xff, false, v & 15 == 15, carry))
            );
            assert_eq!(
                dec8(v, before),
                (v.wrapping_sub(1), flags(v == 1, true, v & 15 == 0, carry))
            );
        }
    }
}

#[test]
fn rotates_and_shifts_move_the_right_bit_into_carry() {
    for v in 0..=255u16 {
        let b = v as u8;
        let top = v & 0x80 != 0;
        let low = v & 0x01 != 0;
        let expect = |r: u16, out: bool| ((r & 0xff) as u8, flags(r & 0xff == 0, false, false, out));
        assert_eq!(rlc8(b), expect((v << 1) | (v >> 7), top));
        assert_eq!(rrc8(b), expect((v >> 1) | (v << 7), low));
        assert_eq!(rl8(b, false), expect(v << 1, top));
        assert_eq!(rl8(b, true), expect((v << 1) | 1, top));
        assert_eq!(rr8(b, false), expect(v >> 1, low));
        assert_eq!(rr8(b, true), expect((v >> 1) | 0x80, low));
        assert_eq!(sla8(b), expect(v << 1, top));
        assert_eq!(sra8(b), expect((v >> 1) | (v & 0x80), low));
        assert_eq!(srl8(b), expect(v >> 1, low));
        assert_eq!(swap8(b), expect((v >> 4) | (v << 4), false));
    }
}

#[test]
fn swap_and_cpl_undo_themselves() {
    for v in 0..=255u8 {
        assert_eq!(swap8(swap8(v).0).0, v);
        let once = cpl8(v, flags(false, false, false, false));
        assert_eq!(once, (!v, flags(false, true, true, false)));
        assert_eq!(cpl8(once.0, once.1).0, v);
    }
}

#[test]
fn bit_res_and_set_touch_one_bit() {
    for v in 0..=255u8 {
        for bit in 0..8u8 {
            let mask = 1u8 << bit;
            assert_eq!(res8(bit, v), v & !mask);
            assert_eq!(set8(bit, v), v | mask);
            for carry in [false, true] {
                assert_eq!(
                    bit8(bit, v, flags(false, true, false, carry)),
                    flags(v & mask == 0, false, true, carry)
                );
            }
        }
    }
}

#[test]
fn add16_carries_out_of_bits_11_and_15() {
    let keep = flags(true, true, false, false);
    assert_eq!(add16(0x0fff, 0x0001, keep), (0x1000, flags(true, false, true, false)));
    assert_eq!(add16(0xffff, 0x0001, keep), (0x0000, flags(true, false, true, true)));
    assert_eq!(add16(0x8000, 0x8000, keep), (0x0000, flags(true, false, false, true)));
    assert_eq!(
        add16(0x1234, 0x0101, flags(false, true, true, true)),
        (0x1335, flags(false, false, false, false))
    );
}

#[test]
fn add_sp_takes_flags_from_the_low_byte() {
    assert_eq!(add_sp(0xfff8, 0x08), (0x0000, flags(false, false, true, true)));
    assert_eq!(add_sp(0x0000, 0xff), (0xffff, flags(false, false, false, false)));
    assert_eq!(add_sp(0x0001, 0xff), (0x0000, flags(false, false, true, true)));
    assert_eq!(add_sp(0x00ff, 0x01), (0x0100, flags(false, false, true, true)));
    assert_eq!(add_sp(0x1000, 0x80), (0x0f80, flags(false, false, false, false)));
}

#[test]
fn daa_after_add_gives_the_decimal_sum() {
    for x in 0..100u32 {
        for y in 0..100u32 {
            let (sum, f) = add8(bcd(x), bcd(y), false);
            let (r, g) = daa8(sum, f);
            assert_eq!(r, bcd((x + y) % 100), "{} + {}", x, y);
            assert_eq!(g, flags(r == 0, false, false, x + y >= 100));
        }
    }
}

#[test]
fn daa_after_sub_gives_the_decimal_difference() {
    for x in 0..100u32 {
        for y in 0..100u32 {
            let (diff, f) = sub8(bcd(x), bcd(y), false);
            let (r, g) = daa8(diff, f);
            assert_eq!(r, bcd((100 + x - y) % 100), "{} - {}", x, y);
            assert_eq!(g, flags(r == 0, true, false, x < y));
        }
    }
}

#[test]
fn scf_and_ccf_keep_zero() {
    assert_eq!(scf(flags(true, true, true, false)), flags(true, false, false, true));
    assert_eq!(ccf(flags(true, true, true, false)), flags(true, false, false, true));
    assert_eq!(ccf(flags(false, false, false, true)), flags(false, false, false, false));
}
