use agent_supervisor::registry::{Admission, Cancellation, Registry};

#[test]
fn register_then_remove_once() {
    let mut r: Registry<u32> = Registry::new();
    assert_eq!(r.register("a".to_string(), 1), Admission::Registered);
    assert!(r.is_live("a"));
    assert_eq!(r.remove("a"), Some(1));
    assert_eq!(r.remove("a"), None);
    assert!(!r.contains("a"));
}

#[test]
fn duplicate_live_id_refused() {
    let mut r: Registry<u32> = Registry::new();
    assert_eq!(r.register("a".to_string(), 1), Admission::Registered);
    assert_eq!(r.register("a".to_string(), 2), Admission::Duplicate(2));
    assert_eq!(r.remove("a"), Some(1));
    assert_eq!(r.register("a".to_string(), 3), Admission::Registered);
    assert_eq!(r.remove("a"), Some(3));
}

#[test]
fn unknown_id_not_cancelled() {
    let mut r: Registry<u32> = Registry::new();
    r.register("a".to_string(), 1);
    let c = r.cancel("b");
    assert_eq!(c, Cancellation::NotRunning);
    assert!(!c.found());
    assert!(r.is_live("a"));
}

#[test]
fn cancel_running_takes_handle() {
    let mut r: Registry<u32> = Registry::new();
    r.register("a".to_string(), 1);
    let c = r.cancel("a");
    assert!(c.found());
    assert_eq!(c, Cancellation::Kill(1));
    assert_eq!(r.remove("a"), None);
    assert_eq!(r.cancel("a"), Cancellation::NotRunning);
}

#[test]
fn completion_first_then_cancel_is_false() {
    let mut r: Registry<u32> = Registry::new();
    r.register("a".to_string(), 1);
    assert_eq!(r.remove("a"), Some(1));
    assert_eq!(r.cancel("a"), Cancellation::NotRunning);
}

#[test]
fn pending_cancel_applies_at_registration() {
    let mut r: Registry<u32> = Registry::new();
    assert!(r.enroll("p".to_string()));
    assert!(!r.enroll("p".to_string()));
    assert!(!r.is_live("p"));
    assert_eq!(r.cancel("p"), Cancellation::Deferred);
    assert_eq!(r.cancel("p"), Cancellation::NotRunning);
    assert_eq!(r.register("p".to_string(), 5), Admission::Cancelled(5));
    assert!(!r.contains("p"));
}

#[test]
fn pending_becomes_live() {
    let mut r: Registry<u32> = Registry::new();
    assert!(r.enroll("p".to_string()));
    assert_eq!(r.register("p".to_string(), 6), Admission::Registered);
    assert!(r.is_live("p"));
    assert_eq!(r.remove("p"), Some(6));
}

#[test]
fn withdraw_drops_only_unspawned() {
    let mut r: Registry<u32> = Registry::new();
    r.enroll("p".to_string());
    r.withdraw("p");
    assert!(!r.contains("p"));
    r.register("q".to_string(), 1);
    r.withdraw("q");
    assert!(r.is_live("q"));
}

#[test]
fn removal_from_middle_keeps_others() {
    let mut r: Registry<u32> = Registry::new();
    for (i, id) in ["a", "b", "c"].iter().enumerate() {
        r.register(id.to_string(), i as u32);
    }
    assert_eq!(r.remove("b"), Some(1));
    assert_eq!(r.remove("c"), Some(2));
    assert_eq!(r.remove("a"), Some(0));
}
