use dragonbones::decode::Decode;
use dragonbones::node::{Node, Number};
use dragonbones::single::{
    Single, HALF_BITS, HUNDRED_BITS, MINUS_ONE_BITS, ONE_BITS, ZERO_BITS,
};

fn nearest(v: i128) -> u32 {
    (v as f32).to_bits()
}

#[test]
fn named_bit_patterns_are_the_numbers_they_name() {
    assert_eq!(f32::from_bits(ZERO_BITS), 0.0);
    assert_eq!(f32::from_bits(HALF_BITS), 0.5);
    assert_eq!(f32::from_bits(ONE_BITS), 1.0);
    assert_eq!(f32::from_bits(MINUS_ONE_BITS), -1.0);
    assert_eq!(f32::from_bits(HUNDRED_BITS), 100.0);
}

#[test]
fn small_integers_convert_exactly() {
    assert_eq!(Single::from_int(0).bits, 0);
    assert_eq!(Single::from_int(1).bits, 0x3F80_0000);
    assert_eq!(Single::from_int(-1).bits, 0xBF80_0000);
    assert_eq!(Single::from_int(2).bits, 0x4000_0000);
    assert_eq!(Single::from_int(24).bits, 0x41C0_0000);
    assert_eq!(Single::from_int(100).bits, HUNDRED_BITS);
    assert_eq!(Single::from_int(16_777_215).bits, 0x4B7F_FFFF);
    assert_eq!(Single::from_int(16_777_216).bits, 0x4B80_0000);
    for v in -70_000i128..70_000 {
        assert_eq!(Single::from_int(v).bits, nearest(v), "{}", v);
        assert_eq!(f32::from_bits(Single::from_int(v).bits), v as f32);
    }
}

#[test]
fn halfway_integers_go_to_the_even_neighbour() {
    // 2^24 + 1 lies halfway between 2^24 and 2^24 + 2
    assert_eq!(Single::from_int(16_777_217).bits, 0x4B80_0000);
    // 2^24 + 3 lies halfway between 2^24 + 2 and 2^24 + 4
    assert_eq!(Single::from_int(16_777_219).bits, 0x4B80_0002);
    assert_eq!(Single::from_int(16_777_218).bits, 0x4B80_0001);
    assert_eq!(Single::from_int(-16_777_217).bits, 0xCB80_0000);
    // just above and just below a halfway point
    assert_eq!(Single::from_int((1 << 25) + 3).bits, nearest((1 << 25) + 3));
    assert_eq!(Single::from_int((1 << 25) + 2).bits, 0x4C00_0000);
    assert_eq!(Single::from_int((1 << 25) + 6).bits, 0x4C00_0002);
    // rounding that carries into the exponent
    assert_eq!(Single::from_int((1 << 25) - 1).bits, 0x4C00_0000);
    assert_eq!(Single::from_int(u64::MAX as i128).bits, 0x5F80_0000);
    assert_eq!(Single::from_int(i64::MAX as i128).bits, 0x5F00_0000);
}

#[test]
fn integers_at_the_ends_of_their_range_convert() {
    assert_eq!(Single::from_int(i128::MAX).bits, nearest(i128::MAX));
    assert_eq!(Single::from_int(i128::MAX).bits, 0x7F00_0000);
    assert_eq!(Single::from_int(i128::MIN).bits, nearest(i128::MIN));
    assert_eq!(Single::from_int(i128::MIN).bits, 0xFF00_0000);
    assert_eq!(Single::from_int(i128::MIN + 1).bits, nearest(i128::MIN + 1));
    assert_eq!(Single::from_int(i64::MIN as i128).bits, nearest(i64::MIN as i128));
    for e in 0..127 {
        let p: i128 = 1 << e;
        for v in [p - 1, p, p + 1, -p, -p - 1, 1 - p, p + (p >> 1), p + (p >> 24), p + (p >> 25)] {
            assert_eq!(Single::from_int(v).bits, nearest(v), "{}", v);
        }
    }
}

#[test]
fn scattered_integers_convert_as_the_machine_does() {
    let mut state: u128 = 0x2545_F491_4F6C_DD1D_9E37_79B9_7F4A_7C15;
    for round in 0..200_000u32 {
        state = state.wrapping_mul(0xDA94_2042_E4DD_58B5).wrapping_add(0x1405_7B7E_F767_814F);
        let width = (state >> 120) as u32 % 128;
        let v = ((state >> (127 - width)) as i128) * if round % 2 == 0 { 1 } else { -1 };
        assert_eq!(Single::from_int(v).bits, nearest(v), "{}", v);
    }
}

#[test]
fn a_number_decodes_to_a_single_whether_written_as_integer_or_real() {
    assert_eq!(Single::decode(&Node::Number(Number::Int(24))), Ok(Single { bits: 0x41C0_0000 }));
    assert_eq!(
        Single::decode(&Node::Number(Number::Int(-3))),
        Ok(Single { bits: (-3.0f32).to_bits() })
    );
    let third = Single { bits: (1.0f32 / 3.0).to_bits() };
    assert_eq!(Single::decode(&Node::Number(Number::Real(third))), Ok(third));
    let negative_zero = Single { bits: 0x8000_0000 };
    assert_eq!(Single::decode(&Node::Number(Number::Real(negative_zero))), Ok(negative_zero));
}
