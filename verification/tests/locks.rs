use std::sync::Arc;
use wq_server::app::event_locker::EventLocker;
use wq_server::app::locker::TagLock;

#[derive(Copy, Clone, PartialEq, Eq, Hash)]
enum Tag {
    Test1,
    Test2,
}

#[test]
fn test_same_tag_cannot_lock_concurrently() {
    let tag_lock = TagLock::new();
    let lock = tag_lock.lock_for(Tag::Test1).try_lock_owned().expect("first lock");
    assert!(
        tag_lock.lock_for(Tag::Test1).try_lock().is_err(),
        "The lock was acquired before it should have been"
    );
    drop(lock);
    assert!(
        tag_lock.lock_for(Tag::Test1).try_lock().is_ok(),
        "The lock was not acquired after it was released"
    );
}

#[test]
fn test_different_tags_can_lock_concurrently() {
    let tag_lock = TagLock::new();
    let lock = tag_lock.lock_for(Tag::Test1).try_lock_owned().expect("first lock");
    assert!(
        tag_lock.lock_for(Tag::Test2).try_lock().is_ok(),
        "The lock for a different tag was not acquired concurrently"
    );
    drop(lock);
}

#[test]
fn event_locker_gives_one_mutex_per_queue() {
    let locker = EventLocker::new();
    let a = locker.lock_for("a".to_string());
    let a2 = locker.lock_for("a".to_string());
    let b = locker.lock_for("b".to_string());
    assert!(Arc::ptr_eq(&a, &a2));
    assert!(!Arc::ptr_eq(&a, &b));
}
