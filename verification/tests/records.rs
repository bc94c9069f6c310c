use zkcreds::joint_records::{
    employee_blob, make_holder_tag, pad_bytes, passport_blob, student_blob, PASSPORT_DOB_OFF,
    PASSPORT_EXPIRY_OFF, PASSPORT_HOLDER_TAG_OFF, PASSPORT_NATIONALITY_OFF, STUDENT_EXPIRY_OFF,
    STUDENT_HOLDER_TAG_OFF, STUDENT_SCHOOL_OFF,
};

#[test]
fn test_pad_bytes() {
    assert_eq!(pad_bytes(b"Alice", 8), b"Alice\0\0\0".to_vec());
    assert_eq!(pad_bytes(b"Alexandria", 4), b"Alex".to_vec());
    assert_eq!(pad_bytes(b"", 3), vec![0u8, 0, 0]);
    assert_eq!(pad_bytes(b"abc", 0), Vec::<u8>::new());
}

#[test]
fn test_holder_tag() {
    assert_eq!(make_holder_tag(7), [7u8; 16]);
}

#[test]
fn test_passport_blob_layout() {
    let blob = passport_blob(b"Alice", *b"CHN", 19_900_101, 20_300_101, make_holder_tag(9));
    assert_eq!(blob.len(), 43);
    assert_eq!(&blob[..5], b"Alice");
    assert!(blob[5..16].iter().all(|b| *b == 0));
    assert_eq!(&blob[PASSPORT_DOB_OFF..PASSPORT_DOB_OFF + 4], &19_900_101u32.to_be_bytes());
    assert_eq!(&blob[PASSPORT_NATIONALITY_OFF..PASSPORT_NATIONALITY_OFF + 3], b"CHN");
    assert_eq!(&blob[PASSPORT_EXPIRY_OFF..PASSPORT_EXPIRY_OFF + 4], &20_300_101u32.to_be_bytes());
    assert_eq!(&blob[PASSPORT_HOLDER_TAG_OFF..], &[9u8; 16]);
}

#[test]
fn test_student_and_employee_blob_layout() {
    let s = student_blob(b"Alice", b"Tsinghua", 20_270_630, make_holder_tag(1));
    assert_eq!(s.len(), 52);
    assert_eq!(&s[..5], b"Alice");
    assert_eq!(&s[STUDENT_SCHOOL_OFF..STUDENT_SCHOOL_OFF + 8], b"Tsinghua");
    assert!(s[STUDENT_SCHOOL_OFF + 8..STUDENT_EXPIRY_OFF].iter().all(|b| *b == 0));
    assert_eq!(u32::from_be_bytes([s[32], s[33], s[34], s[35]]), 20_270_630);
    assert_eq!(&s[STUDENT_HOLDER_TAG_OFF..], &[1u8; 16]);

    let e = employee_blob(b"A name that is far too long", b"Company", 0xdead_beef, make_holder_tag(2));
    assert_eq!(&e[..16], b"A name that is f");
    assert_eq!(&e[16..23], b"Company");
    assert_eq!(&e[32..36], &[0xde, 0xad, 0xbe, 0xef]);
    assert_eq!(&e[36..], &[2u8; 16]);
}
