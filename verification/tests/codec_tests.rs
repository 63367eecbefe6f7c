use render_core::codec::{
    get_u16_be_at, get_u32_be_at, get_u8_at, grow_to, put_u16_be_at, put_u32_be_at, put_u8_at,
};

#[test]
fn u8_round_trip() {
    let mut buf: Vec<u8> = vec![0; 8];
    put_u8_at(&mut buf, 3, 0xAB);
    assert_eq!(get_u8_at(&buf, 3), 0xAB);
    assert_eq!(buf.len(), 8);
}

#[test]
fn u16_round_trip_and_endianness() {
    let mut buf: Vec<u8> = vec![0; 8];
    for v in [0u16, 1, 0x00FF, 0x0100, 0xABCD, u16::MAX] {
        put_u16_be_at(&mut buf, 2, v);
        assert_eq!(get_u16_be_at(&buf, 2), v);
        assert_eq!([buf[2], buf[3]], v.to_be_bytes());
    }
}

#[test]
fn u32_round_trip_and_endianness() {
    let mut buf: Vec<u8> = vec![0; 8];
    for v in [0u32, 1, 0xFF, 0x100, 0xDEADBEEF, u32::MAX] {
        put_u32_be_at(&mut buf, 4, v);
        assert_eq!(get_u32_be_at(&buf, 4), v);
        assert_eq!([buf[4], buf[5], buf[6], buf[7]], v.to_be_bytes());
    }
}

#[test]
fn float_bit_patterns_round_trip() {
    let mut buf: Vec<u8> = vec![0; 4];
    let values = [
        0.0f32,
        -0.0,
        1.5,
        -2.25,
        f32::NAN,
        f32::INFINITY,
        f32::NEG_INFINITY,
        f32::MIN_POSITIVE,
        1.0e-44, // subnormal
        f32::MAX,
        f32::MIN,
    ];
    for v in values {
        put_u32_be_at(&mut buf, 0, v.to_bits());
        assert_eq!([buf[0], buf[1], buf[2], buf[3]], v.to_be_bytes());
        let back = f32::from_bits(get_u32_be_at(&buf, 0));
        assert_eq!(back.to_bits(), v.to_bits());
    }
}

#[test]
fn grow_extends_with_zeros_and_keeps_content() {
    let mut buf: Vec<u8> = vec![7, 8];
    grow_to(&mut buf, 5);
    assert_eq!(buf, vec![7, 8, 0, 0, 0]);
    grow_to(&mut buf, 3);
    assert_eq!(buf.len(), 5);
}

#[test]
fn negative_values_round_trip_through_unsigned_bits() {
    let mut buf: Vec<u8> = vec![0; 4];
    let v: i16 = -12345;
    put_u16_be_at(&mut buf, 0, v as u16);
    assert_eq!(get_u16_be_at(&buf, 0) as i16, -12345);
    assert_eq!([buf[0], buf[1]], v.to_be_bytes());
    let b: i8 = -5;
    put_u8_at(&mut buf, 2, b as u8);
    assert_eq!(get_u8_at(&buf, 2) as i8, -5);
    let i: i32 = -7_654_321;
    put_u32_be_at(&mut buf, 0, i as u32);
    assert_eq!(get_u32_be_at(&buf, 0) as i32, -7_654_321);
}
