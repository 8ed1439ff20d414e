use faculty_core::rooms::{RoomRegistry, RoomSnapshot};

fn snap(room_id: i64, name: &str, occupants: u64) -> RoomSnapshot {
    RoomSnapshot { room_id, name: name.to_string(), occupants }
}

#[test]
fn an_emptied_temp_room_is_deleted_once() {
    let lobby = "Join to create".to_string();
    let mut reg = RoomRegistry::new();
    reg.record_room(500, 42);

    // The owner leaves their room empty.
    let acts = reg.handle_move(&lobby, &Some(snap(500, "room of 42", 0)), &None, 42);
    assert_eq!(acts.delete_room, Some(500));
    assert_eq!(acts.spawn_room_for, None);
    assert!(!reg.is_tracked(500), "the record goes with the room");

    // A second "room empty" event for the same id is a no-op.
    let acts = reg.handle_move(&lobby, &Some(snap(500, "room of 42", 0)), &None, 42);
    assert_eq!(acts.delete_room, None);
    assert_eq!(acts.spawn_room_for, None);
}

#[test]
fn the_lobby_is_never_deleted() {
    let lobby = "Join to create".to_string();
    let mut reg = RoomRegistry::new();
    // Even a tracked room is kept when it is the lobby by name.
    reg.record_room(1, 9);
    let acts = reg.handle_move(&lobby, &Some(snap(1, "Join to create", 0)), &None, 9);
    assert_eq!(acts.delete_room, None);
    assert!(reg.is_tracked(1));
}

#[test]
fn an_untracked_room_is_never_deleted() {
    let lobby = "Join to create".to_string();
    let mut reg = RoomRegistry::new();
    let acts = reg.handle_move(&lobby, &Some(snap(77, "general", 0)), &None, 5);
    assert_eq!(acts.delete_room, None);
}

#[test]
fn an_occupied_room_is_kept() {
    let lobby = "Join to create".to_string();
    let mut reg = RoomRegistry::new();
    reg.record_room(500, 42);
    let acts = reg.handle_move(&lobby, &Some(snap(500, "room of 42", 1)), &None, 42);
    assert_eq!(acts.delete_room, None);
    assert!(reg.is_tracked(500));
}

#[test]
fn entering_the_lobby_spawns_a_room() {
    let lobby = "Join to create".to_string();
    let mut reg = RoomRegistry::new();
    let acts = reg.handle_move(&lobby, &None, &Some(snap(1, "Join to create", 1)), 42);
    assert_eq!(acts.delete_room, None);
    assert_eq!(acts.spawn_room_for, Some(42));
    // The host created room 900 for the member and reports it back.
    reg.record_spawn(900, 42);
    assert!(reg.is_tracked(900));
}

#[test]
fn vacate_and_spawn_can_fire_on_one_event() {
    let lobby = "Join to create".to_string();
    let mut reg = RoomRegistry::new();
    reg.record_room(500, 42);
    // The member leaves their empty temp room straight into the lobby.
    let acts = reg.handle_move(
        &lobby,
        &Some(snap(500, "room of 42", 0)),
        &Some(snap(1, "Join to create", 1)),
        42,
    );
    assert_eq!(acts.delete_room, Some(500));
    assert_eq!(acts.spawn_room_for, Some(42));
}

#[test]
fn staying_in_the_same_room_changes_nothing() {
    let lobby = "Join to create".to_string();
    let mut reg = RoomRegistry::new();
    reg.record_room(500, 42);
    let acts = reg.handle_move(
        &lobby,
        &Some(snap(500, "room of 42", 0)),
        &Some(snap(500, "room of 42", 0)),
        42,
    );
    assert_eq!(acts.delete_room, None);
    assert_eq!(acts.spawn_room_for, None);
    assert!(reg.is_tracked(500));
}
