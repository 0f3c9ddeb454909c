use snekverse::{copy_text, resolve, Failure, PlaceKind, ProviderFault, RoomInfo};

#[test]
fn resolved_values_pass_through() {
    let r: Result<Vec<u32>, Failure> = resolve(Ok(vec![3, 1, 2, 1]));
    assert_eq!(r, Ok(vec![3, 1, 2, 1]));
}

#[test]
fn provider_failure_is_operation_failure() {
    let r: Result<Vec<u32>, Failure> = resolve(Err(ProviderFault::MissingAuthentication));
    assert_eq!(r, Err(Failure::Operation(ProviderFault::MissingAuthentication)));
}

#[test]
fn empty_collection_is_not_failure() {
    let r: Result<Vec<u32>, Failure> = resolve(Ok(vec![]));
    assert_eq!(r, Ok(vec![]));
}

#[test]
fn absent_relation_is_not_failure() {
    let r: Result<Option<u32>, Failure> = resolve(Ok(None));
    assert_eq!(r, Ok(None));
}

#[test]
fn relations_fail_independently() {
    let student: Result<u32, Failure> = resolve(Ok(7));
    let instance: Result<u32, Failure> = resolve(Err(ProviderFault::ResourceMissing));
    assert_eq!(student, Ok(7));
    assert_eq!(instance, Err(Failure::Operation(ProviderFault::ResourceMissing)));
}

#[test]
fn placemark_has_no_room_fields() {
    let k = PlaceKind::Placemark;
    assert!(!k.is_room());
    assert_eq!(k.capacity(), None);
    assert_eq!(k.door_number(), None);
    assert_eq!(k.description(), None);
    assert_eq!(k.equipment(), None);
}

#[test]
fn room_exposes_its_fields() {
    let k = PlaceKind::Room(RoomInfo {
        capacity: Some(120),
        door_number: Some(127),
        description: Some("Auditorium".to_string()),
        equipment: None,
    });
    assert!(k.is_room());
    assert_eq!(k.capacity(), Some(120));
    assert_eq!(k.door_number(), Some(127));
    assert_eq!(k.description(), Some("Auditorium".to_string()));
    assert_eq!(k.equipment(), None);
}

#[test]
fn copied_text_is_equal() {
    assert_eq!(copy_text(&Some("abc".to_string())), Some("abc".to_string()));
    assert_eq!(copy_text(&None), None);
}
