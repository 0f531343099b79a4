use ed448::{ComponentBytes, Signature, SignatureBytes, COMPONENT_SIZE};

/// The array whose byte at position `i` is `start + i`, wrapping at 256.
fn counting_from(start: u8) -> SignatureBytes {
    let mut bytes = [0u8; Signature::BYTE_SIZE];
    for (i, byte) in bytes.iter_mut().enumerate() {
        *byte = start.wrapping_add(i as u8);
    }
    bytes
}

fn two_halves(r: u8, s: u8) -> SignatureBytes {
    let mut bytes = [r; Signature::BYTE_SIZE];
    for byte in bytes.iter_mut().skip(COMPONENT_SIZE) {
        *byte = s;
    }
    bytes
}

#[test]
fn sizes_are_57_and_114() {
    assert_eq!(COMPONENT_SIZE, 57);
    assert_eq!(Signature::BYTE_SIZE, 114);
    assert_eq!(core::mem::size_of::<SignatureBytes>(), 114);
}

#[test]
fn default_component_is_all_zero() {
    let zero = ComponentBytes::default();
    assert_eq!(zero.as_bytes(), &[0u8; 57]);
    assert_eq!(zero, ComponentBytes::new([0u8; 57]));
}

#[test]
fn component_keeps_its_bytes() {
    let mut bytes = [0u8; 57];
    for (i, byte) in bytes.iter_mut().enumerate() {
        *byte = 200 + i as u8;
    }
    let component = ComponentBytes::new(bytes);
    assert_eq!(component.as_bytes(), &bytes);
    assert_eq!(component.as_bytes()[0], 200);
    assert_eq!(component.as_bytes()[55], 255);
    assert_eq!(component.as_bytes()[56], 0);
}

#[test]
fn component_equality_looks_at_every_byte() {
    let base = ComponentBytes::new([9u8; 57]);
    assert_eq!(base, ComponentBytes::new([9u8; 57]));
    for position in [0usize, 1, 28, 55, 56] {
        let mut bytes = [9u8; 57];
        bytes[position] = 10;
        assert_ne!(base, ComponentBytes::new(bytes));
        assert_ne!(ComponentBytes::new(bytes), base);
    }
}

#[test]
fn to_bytes_gives_back_what_from_bytes_took() {
    for start in [0u8, 1, 100, 200, 255] {
        let bytes = counting_from(start);
        assert_eq!(Signature::from_bytes(&bytes).to_bytes(), bytes);
    }
    assert_eq!(Signature::from_bytes(&[0u8; 114]).to_bytes(), [0u8; 114]);
    assert_eq!(Signature::from_bytes(&[0xFFu8; 114]).to_bytes(), [0xFFu8; 114]);
}

#[test]
fn from_bytes_gives_back_what_to_bytes_took() {
    let sig = Signature::from_components(ComponentBytes::new([3u8; 57]), ComponentBytes::new([250u8; 57]));
    assert!(Signature::from_bytes(&sig.to_bytes()) == sig);
    let parsed = Signature::from_bytes(&counting_from(17));
    assert!(Signature::from_bytes(&parsed.to_bytes()) == parsed);
}

#[test]
fn from_slice_rejects_every_length_but_114() {
    for length in [0usize, 1, 56, 57, 58, 113, 115, 228, 1000] {
        let bytes = vec![0x5Au8; length];
        assert!(Signature::from_slice(&bytes).is_err(), "length {}", length);
    }
    assert!(Signature::from_slice(&[0x5Au8; 114]).is_ok());
}

#[test]
fn from_slice_rejects_the_empty_slice() {
    assert!(Signature::from_slice(&[]).is_err());
}

#[test]
fn from_slice_agrees_with_from_bytes() {
    let bytes = counting_from(42);
    let from_slice = Signature::from_slice(&bytes[..]).unwrap();
    assert!(from_slice == Signature::from_bytes(&bytes));
    assert_eq!(from_slice.to_bytes(), bytes);
}

#[test]
fn from_slice_takes_a_window_of_a_longer_buffer() {
    let buffer: Vec<u8> = (0..=255u8).collect();
    let sig = Signature::from_slice(&buffer[10..124]).unwrap();
    assert_eq!(sig.to_bytes(), counting_from(10));
    assert!(Signature::from_slice(&buffer[10..123]).is_err());
    assert!(Signature::from_slice(&buffer[10..125]).is_err());
}

#[test]
fn decode_error_is_the_opaque_signature_error() {
    let error = Signature::from_slice(&[1u8, 2, 3]).err().unwrap();
    assert_eq!(format!("{}", error), "signature error");
}

#[test]
fn components_are_the_two_halves() {
    let sig = Signature::from_bytes(&two_halves(0xAA, 0xBB));
    assert_eq!(sig.r_bytes().as_bytes(), &[0xAAu8; 57]);
    assert_eq!(sig.s_bytes().as_bytes(), &[0xBBu8; 57]);
    assert_eq!(sig.r_bytes(), &ComponentBytes::new([0xAAu8; 57]));
    assert_eq!(sig.s_bytes(), &ComponentBytes::new([0xBBu8; 57]));
}

#[test]
fn split_point_is_offset_57() {
    let sig = Signature::from_bytes(&counting_from(0));
    let r = sig.r_bytes().as_bytes();
    let s = sig.s_bytes().as_bytes();
    assert_eq!(r[0], 0);
    assert_eq!(r[56], 56);
    assert_eq!(s[0], 57);
    assert_eq!(s[56], 113);
    for i in 0..57 {
        assert_eq!(r[i], i as u8);
        assert_eq!(s[i], 57 + i as u8);
    }
}

#[test]
fn from_components_puts_r_first() {
    let r = ComponentBytes::new([1u8; 57]);
    let s = ComponentBytes::new([2u8; 57]);
    let sig = Signature::from_components(r, s);
    assert_eq!(sig.r_bytes(), &r);
    assert_eq!(sig.s_bytes(), &s);
    assert_eq!(sig.to_bytes(), two_halves(1, 2));
    assert!(sig == Signature::from_bytes(&two_halves(1, 2)));
    assert!(sig != Signature::from_components(s, r));
}

#[test]
fn same_bytes_give_equal_signatures() {
    let a = Signature::from_bytes(&counting_from(5));
    let b = Signature::from_bytes(&counting_from(5));
    assert!(a == b);
    assert!(!(a != b));
}

#[test]
fn differing_bytes_give_unequal_signatures() {
    let base = counting_from(5);
    let sig = Signature::from_bytes(&base);
    for position in [0usize, 1, 56, 57, 58, 112, 113] {
        let mut bytes = base;
        bytes[position] ^= 0x01;
        let other = Signature::from_bytes(&bytes);
        assert!(sig != other, "position {}", position);
        assert!(other != sig, "position {}", position);
    }
}

#[test]
fn equality_is_an_equivalence() {
    let a = Signature::from_bytes(&counting_from(9));
    let b = Signature::from_slice(&counting_from(9)).unwrap();
    let c = Signature::from(counting_from(9));
    let d = Signature::from_bytes(&counting_from(10));
    assert!(a == a);
    assert!(a == b && b == a);
    assert!(a == b && b == c && a == c);
    assert!(a != d && d != a);
    assert!(b != d);
}

#[test]
fn signature_is_a_copy_type() {
    let a = Signature::from_bytes(&counting_from(77));
    let b = a;
    let c = a.clone();
    assert!(a == b);
    assert!(a == c);
}

#[test]
fn conversions_by_value() {
    let bytes = counting_from(33);
    let sig: Signature = bytes.into();
    assert!(sig == Signature::from_bytes(&bytes));
    let back: SignatureBytes = sig.into();
    assert_eq!(back, bytes);
    assert_eq!(SignatureBytes::from(sig), bytes);
}

#[test]
fn conversions_by_reference() {
    let bytes = counting_from(34);
    let sig = Signature::from(&bytes);
    assert!(sig == Signature::from_bytes(&bytes));
    let back = SignatureBytes::from(&sig);
    assert_eq!(back, bytes);
    let again: SignatureBytes = (&sig).into();
    assert_eq!(again, bytes);
}

#[test]
fn try_from_slice_is_from_slice() {
    let bytes = counting_from(35);
    let sig = Signature::try_from(&bytes[..]).unwrap();
    assert!(sig == Signature::from_bytes(&bytes));
    for length in [0usize, 1, 113, 115, 1000] {
        let wrong = vec![0u8; length];
        assert!(Signature::try_from(&wrong[..]).is_err(), "length {}", length);
    }
}
