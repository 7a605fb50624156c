use sidecar_supervisor::process::SidecarHandle;
use sidecar_supervisor::registry::Registry;

#[test]
fn take_on_empty_registry_is_none() {
    let mut r = Registry::new();
    assert_eq!(r.take(), None);
    assert_eq!(r.take(), None);
}

#[test]
fn take_after_store_returns_the_stored_handle() {
    let mut r = Registry::new();
    let h = SidecarHandle { pid: 17 };
    r.store(h);
    assert_eq!(r.take(), Some(h));
    assert_eq!(r.take(), None);
}

#[test]
fn store_overwrites_a_present_handle() {
    let mut r = Registry::new();
    r.store(SidecarHandle { pid: 1 });
    r.store(SidecarHandle { pid: 2 });
    assert_eq!(r.take(), Some(SidecarHandle { pid: 2 }));
    assert_eq!(r.take(), None);
}

#[test]
fn slot_holds_at_most_one_handle() {
    let mut r = Registry::new();
    r.store(SidecarHandle { pid: 5 });
    r.store(SidecarHandle { pid: 6 });
    r.store(SidecarHandle { pid: 7 });
    assert!(r.slot.is_some());
    assert_eq!(r.take(), Some(SidecarHandle { pid: 7 }));
    assert!(r.slot.is_none());
}
