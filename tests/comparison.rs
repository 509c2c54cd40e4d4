use constant_time_eq::{
    constant_time_eq,
    constant_time_eq_16,
    constant_time_eq_32,
    constant_time_eq_64,
    constant_time_ne,
    constant_time_ne_n,
};

#[test]
fn equal_strings() {
    assert!(constant_time_eq(b"foo", b"foo"));
}

#[test]
fn unequal_strings() {
    assert!(!constant_time_eq(b"foo", b"bar"));
    assert!(!constant_time_eq(b"bar", b"baz"));
}

#[test]
fn empty_strings() {
    assert!(constant_time_eq(b"", b""));
}

#[test]
fn different_lengths() {
    assert!(!constant_time_eq(b"foo", b""));
    assert!(!constant_time_eq(b"foo", b"quux"));
    assert!(!constant_time_eq(b"", b"a"));
}

#[test]
fn fixed_16() {
    assert!(constant_time_eq_16(&[3; 16], &[3; 16]));
    assert!(!constant_time_eq_16(&[3; 16], &[7; 16]));
}

#[test]
fn fixed_32() {
    assert!(constant_time_eq_32(&[3; 32], &[3; 32]));
    assert!(!constant_time_eq_32(&[3; 32], &[7; 32]));
}

#[test]
fn fixed_64() {
    assert!(constant_time_eq_64(&[3; 64], &[3; 64]));
    assert!(!constant_time_eq_64(&[3; 64], &[7; 64]));
}

#[test]
fn reflexive_on_all_bytes() {
    let x: Vec<u8> = (0..=255u8).collect();
    assert!(constant_time_eq(&x, &x));
}

#[test]
fn symmetric_on_examples() {
    let pairs: [(&[u8], &[u8]); 4] = [
        (b"foo", b"foo"),
        (b"foo", b"bar"),
        (b"abc", b"abd"),
        (b"", b""),
    ];
    for (a, b) in pairs {
        assert_eq!(constant_time_eq(a, b), constant_time_eq(b, a));
    }
}

#[test]
fn one_differing_byte_at_each_position() {
    let a = [0x5au8; 40];
    for i in 0..a.len() {
        for bit in 0..8 {
            let mut b = a;
            b[i] ^= 1u8 << bit;
            assert!(!constant_time_eq(&a, &b));
        }
    }
}

#[test]
fn one_differing_byte_fixed_sizes() {
    let mut b16 = [9u8; 16];
    b16[15] = 8;
    assert!(!constant_time_eq_16(&[9; 16], &b16));
    let mut b32 = [9u8; 32];
    b32[0] = 0;
    assert!(!constant_time_eq_32(&[9; 32], &b32));
    let mut b64 = [9u8; 64];
    b64[31] = 0x89;
    assert!(!constant_time_eq_64(&[9; 64], &b64));
}

#[test]
fn fixed_sizes_agree_with_general() {
    let mut a = [0u8; 64];
    let mut b = [0u8; 64];
    for i in 0..64 {
        a[i] = (i * 7) as u8;
        b[i] = (i * 7) as u8;
    }
    assert_eq!(constant_time_eq_64(&a, &b), constant_time_eq(&a, &b));
    b[40] = 1;
    assert_eq!(constant_time_eq_64(&a, &b), constant_time_eq(&a, &b));

    let a16: [u8; 16] = a[..16].try_into().unwrap();
    let b16: [u8; 16] = b[..16].try_into().unwrap();
    assert_eq!(constant_time_eq_16(&a16, &b16), constant_time_eq(&a16, &b16));
    let a32: [u8; 32] = a[32..].try_into().unwrap();
    let b32: [u8; 32] = b[32..].try_into().unwrap();
    assert_eq!(constant_time_eq_32(&a32, &b32), constant_time_eq(&a32, &b32));
    assert!(!constant_time_eq_32(&a32, &b32));
}

#[test]
fn accumulator_is_or_of_xors() {
    assert_eq!(constant_time_ne(b"foo", b"foo"), 0);
    assert_eq!(constant_time_ne(&[0x0f, 0x00], &[0x00, 0xf0]), 0xff);
    assert_eq!(constant_time_ne(&[1, 2, 4], &[0, 0, 0]), 7);
    assert_eq!(constant_time_ne(b"", b""), 0);
    assert_eq!(constant_time_ne_n(&[0x10u8; 16], &[0x01u8; 16]), 0x11);
}
