use vdex_bridge::names::{allocate_name, vdex_free_name};

#[test]
fn allocate_name_copies_and_terminates() {
    let buf = allocate_name(&b"Potion".to_vec());
    assert_eq!(buf.as_bytes(), &b"Potion\0".to_vec());
}

#[test]
fn allocate_name_empty() {
    let buf = allocate_name(&Vec::new());
    assert_eq!(buf.as_bytes(), &vec![0u8]);
}

#[test]
fn free_name_nulls_reference() {
    let mut slot = Some(allocate_name(&b"Potion".to_vec()));
    vdex_free_name(&mut slot);
    assert!(slot.is_none());
}

#[test]
fn free_name_twice_is_noop() {
    let mut slot = Some(allocate_name(&b"Potion".to_vec()));
    vdex_free_name(&mut slot);
    assert!(slot.is_none());
    // The reference was nulled by the first free; the second is a safe
    // no-op.
    vdex_free_name(&mut slot);
    assert!(slot.is_none());
}
