use tex_convert::workspace::{
    parse_sticker_name, HashString, StickerInfo, StickerNameError, Workspace, WorkspaceInfo,
};

fn sticker(collection: &str, id: i32, checksum: Vec<u8>) -> StickerInfo {
    StickerInfo {
        collection: collection.to_string(),
        id,
        name: format!("{}_{}.png", collection, id),
        checksum_sha256: HashString::from_bytes(checksum),
    }
}

#[test]
fn hash_string_to_hex() {
    assert_eq!(HashString::from_bytes(vec![0x00, 0xab, 0x1f, 0xff]).to_hex(), "00ab1fff");
    assert_eq!(HashString::from_bytes(vec![]).to_hex(), "");
}

#[test]
fn hash_string_equality() {
    let a = HashString::from_bytes(vec![1, 2, 3]);
    assert!(a == HashString::from_bytes(vec![1, 2, 3]));
    assert!(a != HashString::from_bytes(vec![1, 2, 4]));
    assert!(a.matches_digest(&[1, 2, 3]));
    assert!(!a.matches_digest(&[1, 2]));
}

#[test]
fn default_workspace_info() {
    let info = WorkspaceInfo::default();
    assert_eq!(info.version(), 1);
    assert!(info.stickers().is_empty());
    assert_eq!(info.collection_count(), 0);
}

#[test]
fn collection_count_counts_distinct_collections() {
    let info = WorkspaceInfo::new(
        1,
        vec![
            sticker("chat_stamp00_ID", 0, vec![1]),
            sticker("chat_stamp00_ID", 1, vec![2]),
            sticker("chat_stamp01_ID", 0, vec![3]),
            sticker("chat_stamp00_ID", 2, vec![4]),
        ],
    );
    assert_eq!(info.collection_count(), 2);
}

#[test]
fn get_collection_keeps_order() {
    let mut ws = Workspace::new(WorkspaceInfo::default(), "ws".to_string());
    ws.add_sticker(sticker("a", 0, vec![1]));
    ws.add_sticker(sticker("b", 0, vec![2]));
    ws.add_sticker(sticker("a", 1, vec![3]));
    assert_eq!(ws.root_path(), "ws");
    let a = ws.get_collection("a");
    assert_eq!(a.len(), 2);
    assert_eq!(a[0].id, 0);
    assert_eq!(a[1].id, 1);
    assert_eq!(a[1].checksum_sha256.to_hex(), "03");
    assert!(ws.get_collection("c").is_empty());
    assert_eq!(ws.info().stickers().len(), 3);
}

#[test]
fn hash_string_from_hex() {
    let h = HashString::from_hex("00Ab1f").unwrap();
    assert_eq!(h.as_bytes(), &[0x00, 0xab, 0x1f]);
    assert_eq!(h.to_hex(), "00ab1f");
    assert!(HashString::from_hex("abc").is_err());
    assert!(HashString::from_hex("zz").is_err());
    assert_eq!(HashString::from_hex("").unwrap().as_bytes(), &[] as &[u8]);
}

#[test]
fn checksum_text_round_trip() {
    let h = HashString::from_bytes((0u8..=255).collect());
    let back = HashString::from_hex(&h.to_hex()).unwrap();
    assert!(back == h);
}

#[test]
fn digest_of_is_sha256() {
    let h = HashString::digest_of(b"abc");
    assert_eq!(
        h.to_hex(),
        "ba7816bf8f01cfea414140de5dae2223b00361a396177a9cb410ff61f20015ad"
    );
    assert_eq!(HashString::digest_of(b"").as_bytes().len(), 32);
    assert_eq!(
        HashString::digest_of(b"").to_hex(),
        "e3b0c44298fc1c149afbf4c8996fb92427ae41e4649b934ca495991b7852b855"
    );
}

#[test]
fn sticker_names_split_at_last_underscore() {
    assert_eq!(
        parse_sticker_name("chat_stamp00_ID_3"),
        Ok(("chat_stamp00_ID".to_string(), 3))
    );
    assert_eq!(parse_sticker_name("a_-12"), Ok(("a".to_string(), -12)));
    assert_eq!(parse_sticker_name("a_+7"), Ok(("a".to_string(), 7)));
    assert_eq!(parse_sticker_name("_0"), Ok((String::new(), 0)));
    assert_eq!(parse_sticker_name("nounderscore"), Err(StickerNameError::NoSeparator));
    assert_eq!(parse_sticker_name("a_b"), Err(StickerNameError::BadId));
    assert_eq!(parse_sticker_name("a_"), Err(StickerNameError::BadId));
    assert_eq!(parse_sticker_name("a_99999999999"), Err(StickerNameError::BadId));
    assert_eq!(parse_sticker_name("a_1 "), Err(StickerNameError::BadId));
}

#[test]
fn parse_sticker_info_records_name_and_checksum() {
    let info = Workspace::parse_sticker_info(b"abc", "chat_stamp01_ID_4", "chat_stamp01_ID_4.png")
        .unwrap();
    assert_eq!(info.collection, "chat_stamp01_ID");
    assert_eq!(info.id, 4);
    assert_eq!(info.name, "chat_stamp01_ID_4.png");
    assert!(info.checksum_sha256 == HashString::digest_of(b"abc"));
    assert!(matches!(
        Workspace::parse_sticker_info(b"abc", "plain", "plain.png"),
        Err(StickerNameError::NoSeparator)
    ));
}

fn three_sticker_workspace() -> Workspace {
    let mut ws = Workspace::new(WorkspaceInfo::default(), "ws".to_string());
    ws.add_sticker(sticker("a", 0, vec![1]));
    ws.add_sticker(sticker("b", 0, vec![2]));
    ws.add_sticker(sticker("a", 1, vec![3]));
    ws
}

#[test]
fn modified_stickers_are_those_with_a_new_checksum() {
    let ws = three_sticker_workspace();
    let digests = vec![Some(vec![1]), Some(vec![9]), Some(vec![7])];
    let changed = ws.get_modified_stickers(&digests);
    let ids: Vec<(String, i32)> = changed.iter().map(|s| (s.collection.clone(), s.id)).collect();
    assert_eq!(ids, vec![("b".to_string(), 0), ("a".to_string(), 1)]);
    let missing = vec![None, None, Some(vec![3])];
    assert!(ws.get_modified_stickers(&missing).is_empty());
}

#[test]
fn modified_collections_hold_every_member() {
    let ws = three_sticker_workspace();
    let digests = vec![Some(vec![1]), None, Some(vec![8])];
    let changed = ws.get_modified_collections(&digests);
    assert_eq!(changed.len(), 1);
    assert_eq!(changed[0].0, "a");
    let ids: Vec<i32> = changed[0].1.iter().map(|s| s.id).collect();
    assert_eq!(ids, vec![0, 1]);
    let all = vec![Some(vec![5]), Some(vec![5]), Some(vec![5])];
    let names: Vec<String> = ws.get_modified_collections(&all).into_iter().map(|p| p.0).collect();
    assert_eq!(names, vec!["a".to_string(), "b".to_string()]);
}
