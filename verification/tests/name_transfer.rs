use store::user_data::{name_bytes_from_user_data, name_from_user_data, user_data_from_name, NAME_CAPACITY, USER_DATA_BYTES};

#[test]
fn name_roundtrips_through_user_data() {
    let ud = user_data_from_name("Alice".as_bytes());
    assert_eq!(ud.len(), USER_DATA_BYTES);
    assert_eq!(&ud[..8], &5u64.to_le_bytes());
    assert_eq!(&ud[8..13], b"Alice");
    assert!(ud[13..].iter().all(|&b| b == 0));
    assert_eq!(name_from_user_data(&ud), "Alice");
}

#[test]
fn long_name_is_cut_to_the_room() {
    let long = vec![b'a'; 300];
    let ud = user_data_from_name(&long);
    assert_eq!(&ud[..8], &(NAME_CAPACITY as u64).to_le_bytes());
    assert_eq!(name_bytes_from_user_data(&ud), vec![b'a'; NAME_CAPACITY]);
}

#[test]
fn announced_length_is_capped_and_read_little_endian() {
    let mut ud = [b'z'; 256];
    ud[..8].copy_from_slice(&3u64.to_le_bytes());
    assert_eq!(name_bytes_from_user_data(&ud), b"zzz".to_vec());
    ud[..8].copy_from_slice(&u64::MAX.to_le_bytes());
    assert_eq!(name_bytes_from_user_data(&ud).len(), NAME_CAPACITY);
    ud[..8].copy_from_slice(&0x0102u64.to_le_bytes());
    assert_eq!(name_bytes_from_user_data(&ud).len(), NAME_CAPACITY);
}

#[test]
fn invalid_utf8_is_replaced() {
    let mut ud = [0u8; 256];
    ud[0] = 3;
    ud[8] = b'a';
    ud[9] = 0xff;
    ud[10] = b'b';
    assert_eq!(name_from_user_data(&ud), "a\u{FFFD}b");
}
