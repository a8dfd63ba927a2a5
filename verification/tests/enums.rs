use vdex_bridge::enums::{bytes_eq, EnumInfo};
use vdex_bridge::VdexError;

fn type_enum() -> EnumInfo {
    EnumInfo { names: vec![b"Normal".to_vec(), b"Fire".to_vec(), b"Water".to_vec()] }
}

#[test]
fn enum_count_and_values() {
    let e = type_enum();
    assert_eq!(e.count(), 3);
    assert_eq!(e.values(), vec![0u16, 1, 2]);
}

#[test]
fn enum_round_trip() {
    let e = type_enum();
    for i in 0..3u16 {
        assert_eq!(e.decode(i).unwrap(), i);
        let name = e.variant_name(i).unwrap().clone();
        assert_eq!(e.encode(&name).unwrap(), i);
    }
}

#[test]
fn enum_decode_rejects_out_of_range() {
    let e = type_enum();
    assert_eq!(e.decode(3), Err(VdexError::BadRepr));
    assert_eq!(e.decode(u16::MAX), Err(VdexError::BadRepr));
    assert_eq!(e.variant_name(3).err(), Some(VdexError::BadRepr));
}

#[test]
fn enum_variant_names() {
    let e = type_enum();
    assert_eq!(e.variant_name(0).unwrap(), &b"Normal".to_vec());
    assert_eq!(e.variant_name(1).unwrap(), &b"Fire".to_vec());
    assert_eq!(e.variant_name(2).unwrap(), &b"Water".to_vec());
}

#[test]
fn enum_encode_unknown_name() {
    let e = type_enum();
    assert_eq!(e.encode(&b"Grass".to_vec()), Err(VdexError::BadRepr));
}

#[test]
fn enum_bytes_eq() {
    assert!(bytes_eq(&b"Fire".to_vec(), &b"Fire".to_vec()));
    assert!(!bytes_eq(&b"Fire".to_vec(), &b"Fir".to_vec()));
    assert!(!bytes_eq(&b"Fire".to_vec(), &b"Firy".to_vec()));
}
