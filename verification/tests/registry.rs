use axum_ycrdt_websocket::broadcast::BroadcastGroup;
use collab_gateway::sync::{new_awareness, BROADCAST_BUFFER_CAPACITY};
use collab_gateway::{BroadcastMap, DocumentRepository, RoomAction};
use std::sync::Arc;
use tokio::runtime::{Builder, Runtime};
use tokio::sync::RwLock;

fn runtime() -> Runtime {
    Builder::new_current_thread().enable_all().build().unwrap()
}

fn build_room(rt: &Runtime, doc_id: i64, content: &str) -> Arc<BroadcastGroup> {
    let awareness = Arc::new(RwLock::new(new_awareness(doc_id, content)));
    Arc::new(rt.block_on(BroadcastGroup::new(awareness, BROADCAST_BUFFER_CAPACITY)))
}

fn expect_create(action: RoomAction) -> (i64, String) {
    match action {
        RoomAction::Create(record) => (record.id, record.content),
        RoomAction::Attach(_) => panic!("told to attach"),
        RoomAction::Wait => panic!("told to wait"),
        RoomAction::NotFound => panic!("not found"),
    }
}

fn expect_attach(action: RoomAction) -> Arc<BroadcastGroup> {
    match action {
        RoomAction::Attach(room) => room,
        RoomAction::Create(_) => panic!("told to create"),
        RoomAction::Wait => panic!("told to wait"),
        RoomAction::NotFound => panic!("not found"),
    }
}

#[test]
fn repository_holds_hello_and_world() {
    let repo = DocumentRepository::new();
    let one = repo.lookup(1).unwrap();
    assert_eq!((one.id, one.content.as_str()), (1, "hello"));
    let two = repo.lookup(2).unwrap();
    assert_eq!((two.id, two.content.as_str()), (2, "world"));
    assert!(repo.lookup(0).is_none());
    assert!(repo.lookup(3).is_none());
    assert!(repo.lookup(99).is_none());
}

#[test]
fn default_repository_is_empty() {
    let repo = DocumentRepository::default();
    assert!(repo.lookup(1).is_none());
    assert!(repo.lookup(2).is_none());
}

#[test]
fn first_request_is_told_to_create() {
    let repo = DocumentRepository::new();
    let mut registry = BroadcastMap::new();
    assert_eq!(expect_create(registry.get_room(1, &repo)), (1, "hello".to_string()));
    assert_eq!(expect_create(registry.get_room(2, &repo)), (2, "world".to_string()));
}

#[test]
fn second_request_waits_for_the_first() {
    let repo = DocumentRepository::new();
    let mut registry = BroadcastMap::new();
    expect_create(registry.get_room(1, &repo));
    assert!(matches!(registry.get_room(1, &repo), RoomAction::Wait));
    assert!(matches!(registry.get_room(1, &repo), RoomAction::Wait));
}

#[test]
fn documents_do_not_wait_for_one_another() {
    let repo = DocumentRepository::new();
    let mut registry = BroadcastMap::new();
    expect_create(registry.get_room(1, &repo));
    assert_eq!(expect_create(registry.get_room(2, &repo)), (2, "world".to_string()));
    assert!(matches!(registry.get_room(99, &repo), RoomAction::NotFound));
}

#[test]
fn unknown_document_is_not_found_and_leaves_no_entry() {
    let repo = DocumentRepository::new();
    let mut registry = BroadcastMap::new();
    assert!(matches!(registry.get_room(99, &repo), RoomAction::NotFound));
    assert!(matches!(registry.get_room(99, &repo), RoomAction::NotFound));
    assert!(matches!(registry.get_room(99, &DocumentRepository::default()), RoomAction::NotFound));
}

#[test]
fn completed_room_is_handed_to_everyone() {
    let rt = runtime();
    let repo = DocumentRepository::new();
    let mut registry = BroadcastMap::new();
    let (id, content) = expect_create(registry.get_room(1, &repo));
    let room = build_room(&rt, id, &content);
    let kept = registry.complete_room(1, room.clone());
    assert!(Arc::ptr_eq(&kept, &room));
    for _ in 0..5 {
        let handed = expect_attach(registry.get_room(1, &repo));
        assert!(Arc::ptr_eq(&handed, &room));
    }
}

#[test]
fn many_requests_cause_one_creation() {
    let rt = runtime();
    let repo = DocumentRepository::new();
    let mut registry = BroadcastMap::new();
    let mut creations = 0;
    let mut waiting = 0;
    let mut seed = None;
    for _ in 0..10 {
        match registry.get_room(2, &repo) {
            RoomAction::Create(record) => {
                creations += 1;
                seed = Some(record);
            },
            RoomAction::Wait => waiting += 1,
            RoomAction::Attach(_) => panic!("no session yet"),
            RoomAction::NotFound => panic!("the store holds the document"),
        }
    }
    assert_eq!((creations, waiting), (1, 9));
    let seed = seed.unwrap();
    let room = build_room(&rt, seed.id, &seed.content);
    registry.complete_room(2, room.clone());
    for _ in 0..10 {
        assert!(Arc::ptr_eq(&expect_attach(registry.get_room(2, &repo)), &room));
    }
}

#[test]
fn existing_room_is_never_replaced() {
    let rt = runtime();
    let repo = DocumentRepository::new();
    let mut registry = BroadcastMap::new();
    expect_create(registry.get_room(1, &repo));
    let first = build_room(&rt, 1, "hello");
    let second = build_room(&rt, 1, "hello");
    assert!(Arc::ptr_eq(&registry.complete_room(1, first.clone()), &first));
    let kept = registry.complete_room(1, second.clone());
    assert!(Arc::ptr_eq(&kept, &first));
    assert!(!Arc::ptr_eq(&kept, &second));
    assert!(Arc::ptr_eq(&expect_attach(registry.get_room(1, &repo)), &first));
}

#[test]
fn existing_room_survives_calls_for_other_documents() {
    let rt = runtime();
    let repo = DocumentRepository::new();
    let mut registry = BroadcastMap::new();
    expect_create(registry.get_room(1, &repo));
    let room = build_room(&rt, 1, "hello");
    registry.complete_room(1, room.clone());
    expect_create(registry.get_room(2, &repo));
    registry.abandon_room(2);
    registry.abandon_room(1);
    registry.get_room(99, &repo);
    let other = build_room(&rt, 2, "world");
    registry.complete_room(2, other.clone());
    assert!(Arc::ptr_eq(&expect_attach(registry.get_room(1, &repo)), &room));
    assert!(Arc::ptr_eq(&expect_attach(registry.get_room(2, &repo)), &other));
}

#[test]
fn existing_room_does_not_need_the_store() {
    let rt = runtime();
    let repo = DocumentRepository::new();
    let mut registry = BroadcastMap::new();
    expect_create(registry.get_room(1, &repo));
    let room = build_room(&rt, 1, "hello");
    registry.complete_room(1, room.clone());
    let handed = expect_attach(registry.get_room(1, &DocumentRepository::default()));
    assert!(Arc::ptr_eq(&handed, &room));
}

#[test]
fn abandoned_creation_can_be_tried_again() {
    let repo = DocumentRepository::new();
    let mut registry = BroadcastMap::new();
    expect_create(registry.get_room(1, &repo));
    assert!(matches!(registry.get_room(1, &repo), RoomAction::Wait));
    registry.abandon_room(1);
    assert_eq!(expect_create(registry.get_room(1, &repo)), (1, "hello".to_string()));
}

#[test]
fn abandoning_nothing_changes_nothing() {
    let repo = DocumentRepository::new();
    let mut registry = BroadcastMap::new();
    registry.abandon_room(1);
    registry.abandon_room(99);
    assert_eq!(expect_create(registry.get_room(1, &repo)), (1, "hello".to_string()));
    assert!(matches!(registry.get_room(99, &repo), RoomAction::NotFound));
}

#[test]
fn cloned_registry_shares_the_rooms() {
    let rt = runtime();
    let repo = DocumentRepository::new();
    let mut registry = BroadcastMap::new();
    expect_create(registry.get_room(1, &repo));
    let room = build_room(&rt, 1, "hello");
    registry.complete_room(1, room.clone());
    let mut copy = registry.clone();
    assert!(Arc::ptr_eq(&expect_attach(copy.get_room(1, &repo)), &room));
}
