use std::sync::Arc;

use mpv_player::{MpvError, PlayerRegistry};

#[test]
fn unknown_and_malformed_ids_are_not_found() {
    let mut reg: PlayerRegistry<String> = PlayerRegistry::new();
    let id = reg.register(Arc::new("a".to_string())).unwrap();
    let other = if id == 1 { 2 } else { 1 };
    let unknown = PlayerRegistry::<String>::serialize(other);
    assert!(matches!(reg.deserialize(&unknown), Err(MpvError::PlayerNotFound)));
    assert!(matches!(reg.deserialize("not-a-uuid"), Err(MpvError::PlayerNotFound)));
    assert!(matches!(reg.deserialize(""), Err(MpvError::PlayerNotFound)));
}

#[test]
fn serialized_id_resolves_to_its_player() {
    let mut reg: PlayerRegistry<String> = PlayerRegistry::new();
    let a = reg.register(Arc::new("a".to_string())).unwrap();
    let b = reg.register(Arc::new("b".to_string())).unwrap();
    assert_ne!(a, b);
    let text = PlayerRegistry::<String>::serialize(b);
    assert_eq!(text.len(), 36);
    assert_eq!(text, uuid::Uuid::from_u128(b).hyphenated().to_string());
    assert_eq!(*reg.deserialize(&text).unwrap(), "b");
    assert_eq!(*reg.lookup(a).unwrap(), "a");
}

#[test]
fn serialize_writes_hyphenated_lowercase() {
    let text = PlayerRegistry::<u8>::serialize(0x0123_4567_89ab_cdef_0123_4567_89ab_cdef);
    assert_eq!(text, "01234567-89ab-cdef-0123-456789abcdef");
}

#[test]
fn remove_forgets_the_player() {
    let mut reg: PlayerRegistry<u8> = PlayerRegistry::new();
    let a = reg.register(Arc::new(1)).unwrap();
    let b = reg.register(Arc::new(2)).unwrap();
    assert!(reg.remove(a));
    assert!(!reg.remove(a));
    assert!(matches!(reg.lookup(a), Err(MpvError::PlayerNotFound)));
    assert_eq!(*reg.lookup(b).unwrap(), 2);
    assert_eq!(reg.len(), 1);
}

#[test]
fn cleanup_drops_players_nobody_else_holds() {
    let mut reg: PlayerRegistry<u8> = PlayerRegistry::new();
    let kept = Arc::new(1);
    let a = reg.register(kept.clone()).unwrap();
    let b = reg.register(Arc::new(2)).unwrap();
    assert_eq!(reg.cleanup(), 1);
    assert_eq!(reg.len(), 1);
    assert_eq!(*reg.lookup(a).unwrap(), 1);
    assert!(matches!(reg.lookup(b), Err(MpvError::PlayerNotFound)));
    drop(kept);
    assert_eq!(reg.cleanup(), 1);
    assert_eq!(reg.len(), 0);
}

#[test]
fn id_of_reads_back_serialized_text() {
    let id = 0xdead_beef_0000_0000_0000_0000_0000_0001u128;
    let text = PlayerRegistry::<u8>::serialize(id);
    assert_eq!(PlayerRegistry::<u8>::id_of(&text), Some(id));
    assert_eq!(PlayerRegistry::<u8>::id_of("zz"), None);
}

const V4_MASK: u128 = 0x0000_0000_0000_F000_C000_0000_0000_0000;
const V4_BITS: u128 = 0x0000_0000_0000_4000_8000_0000_0000_0000;

#[test]
fn registered_ids_are_version_four() {
    let mut reg: PlayerRegistry<u8> = PlayerRegistry::new();
    for n in 0..20u8 {
        let id = reg.register(Arc::new(n)).unwrap();
        assert_eq!(id & V4_MASK, V4_BITS);
        assert_eq!(uuid::Uuid::from_u128(id).get_version_num(), 4);
    }
    assert_eq!(reg.len(), 20);
}

#[test]
fn insert_fresh_takes_only_new_random_ids() {
    let mut reg: PlayerRegistry<u8> = PlayerRegistry::new();
    let id = 0x1234_5678_9abc_4def_8123_4567_89ab_cdefu128;
    assert!(reg.insert_fresh(id, Arc::new(1)));
    assert!(!reg.insert_fresh(id, Arc::new(2)));
    assert!(!reg.insert_fresh(0, Arc::new(3)));
    assert_eq!(reg.len(), 1);
    assert_eq!(*reg.lookup(id).unwrap(), 1);
    assert!(matches!(reg.deserialize("00000000-0000-0000-0000-000000000000"), Err(MpvError::PlayerNotFound)));
}

#[test]
fn drop_unheld_keeps_held_entries_in_order() {
    let mut reg: PlayerRegistry<u8> = PlayerRegistry::new();
    let ids = [
        0x0000_0000_0000_4000_8000_0000_0000_0001u128,
        0x0000_0000_0000_4000_8000_0000_0000_0002u128,
        0x0000_0000_0000_4000_8000_0000_0000_0003u128,
        0x0000_0000_0000_4000_8000_0000_0000_0004u128,
    ];
    for (n, id) in ids.iter().enumerate() {
        assert!(reg.insert_fresh(*id, Arc::new(n as u8)));
    }
    assert_eq!(reg.drop_unheld(&vec![1, 2, 1, 5]), 2);
    assert_eq!(reg.len(), 2);
    assert_eq!(*reg.lookup(ids[1]).unwrap(), 1);
    assert_eq!(*reg.lookup(ids[3]).unwrap(), 3);
    assert!(matches!(reg.lookup(ids[0]), Err(MpvError::PlayerNotFound)));
    assert!(matches!(reg.lookup(ids[2]), Err(MpvError::PlayerNotFound)));
}
