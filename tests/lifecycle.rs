use std::cell::{Cell, RefCell};

use vigem_client::target::{FIRST_SLOT, MAX_SLOT};
use vigem_client::{DualShock4Wired, Error, TargetId};

const ID: TargetId = TargetId { vendor: 0x054C, product: 0x05C4 };

fn fresh() -> DualShock4Wired<u32> {
    DualShock4Wired::new(42u32, ID)
}

#[test]
fn new_target_is_unplugged() {
    let t = fresh();
    assert!(!t.is_attached());
    assert_eq!(t.serial_no(), 0);
    assert_eq!(t.id(), ID);
    assert_eq!(*t.client(), 42);
}

#[test]
fn plugin_takes_first_free_slot() {
    let mut t = fresh();
    let asked = RefCell::new(Vec::new());
    let r = t.plugin(|k, id| {
        asked.borrow_mut().push((k, id));
        k == 3
    });
    assert_eq!(r, Ok(()));
    assert!(t.is_attached());
    assert_eq!(t.serial_no(), 3);
    assert_eq!(*asked.borrow(), vec![(1, ID), (2, ID), (3, ID)]);
}

#[test]
fn plugin_first_candidate_accepted() {
    let mut t = fresh();
    assert_eq!(t.plugin(|_, _| true), Ok(()));
    assert_eq!(t.serial_no(), FIRST_SLOT);
}

#[test]
fn plugin_twice_is_already_connected() {
    let mut t = fresh();
    assert_eq!(t.plugin(|_, _| true), Ok(()));
    let calls = Cell::new(0u32);
    let r = t.plugin(|_, _| {
        calls.set(calls.get() + 1);
        true
    });
    assert_eq!(r, Err(Error::AlreadyConnected));
    assert_eq!(calls.get(), 0);
    assert_eq!(t.serial_no(), 1);
}

#[test]
fn unplug_before_plugin_is_not_plugged_in() {
    let mut t = fresh();
    let called = Cell::new(false);
    let r = t.unplug(|_| {
        called.set(true);
        Ok(())
    });
    assert_eq!(r, Err(Error::NotPluggedIn));
    assert!(!called.get());
}

#[test]
fn plugin_all_slots_refused_is_no_free_slot() {
    let mut t = fresh();
    let calls = Cell::new(0u32);
    let last = Cell::new(0u32);
    let r = t.plugin(|k, _| {
        calls.set(calls.get() + 1);
        last.set(k);
        false
    });
    assert_eq!(r, Err(Error::NoFreeSlot));
    assert!(!t.is_attached());
    assert_eq!(calls.get(), 65535);
    assert_eq!(last.get(), MAX_SLOT);
}

#[test]
fn plugin_last_slot_accepted() {
    let mut t = fresh();
    assert_eq!(t.plugin(|k, _| k == 65535), Ok(()));
    assert_eq!(t.serial_no(), 65535);
}

#[test]
fn update_before_plugin_is_not_plugged_in() {
    let mut t = fresh();
    let report = [1u8, 2, 3];
    assert_eq!(t.update(&report, |_, _| Ok(())), Err(Error::NotPluggedIn));
    assert_eq!(t.update_ex(&report, |_, _| Ok(())), Err(Error::NotPluggedIn));
    assert_eq!(t.wait_ready(|_| Ok(())), Err(Error::NotPluggedIn));
}

#[test]
fn update_after_plugin_and_wait_ready() {
    let mut t = fresh();
    assert_eq!(t.plugin(|k, _| k == 2), Ok(()));
    let waited = Cell::new(0u32);
    assert_eq!(
        t.wait_ready(|s| {
            waited.set(s);
            Ok(())
        }),
        Ok(())
    );
    assert_eq!(waited.get(), 2);
    let sent = RefCell::new(Vec::new());
    let report = [9u8, 8, 7];
    assert_eq!(
        t.update(&report, |s, r: [u8; 3]| {
            sent.borrow_mut().push((s, r.to_vec()));
            Ok(())
        }),
        Ok(())
    );
    let ex = [5u8; 4];
    assert_eq!(
        t.update_ex(&ex, |s, r: [u8; 4]| {
            sent.borrow_mut().push((s, r.to_vec()));
            Ok(())
        }),
        Ok(())
    );
    assert_eq!(*sent.borrow(), vec![(2, vec![9, 8, 7]), (2, vec![5, 5, 5, 5])]);
}

#[test]
fn channel_error_passes_through() {
    let mut t = fresh();
    assert_eq!(t.plugin(|_, _| true), Ok(()));
    assert_eq!(t.update(&0u8, |_, _| Err(31)), Err(Error::WinError(31)));
    assert_eq!(t.update_ex(&0u8, |_, _| Err(87)), Err(Error::WinError(87)));
    assert_eq!(t.wait_ready(|_| Err(5)), Err(Error::WinError(5)));
    assert!(t.is_attached());
}

#[test]
fn unplug_detaches_slot() {
    let mut t = fresh();
    assert_eq!(t.plugin(|k, _| k == 4), Ok(()));
    let detached = Cell::new(0u32);
    assert_eq!(
        t.unplug(|s| {
            detached.set(s);
            Ok(())
        }),
        Ok(())
    );
    assert_eq!(detached.get(), 4);
    assert!(!t.is_attached());
    assert_eq!(t.plugin(|k, _| k == 1), Ok(()));
    assert_eq!(t.serial_no(), 1);
}

#[test]
fn unplug_failure_keeps_target_plugged_in() {
    let mut t = fresh();
    assert_eq!(t.plugin(|_, _| true), Ok(()));
    assert_eq!(t.unplug(|_| Err(1167)), Err(Error::WinError(1167)));
    assert!(t.is_attached());
}

#[test]
fn drop_unplugs_and_returns_client() {
    let mut t = fresh();
    assert_eq!(t.plugin(|k, _| k == 6), Ok(()));
    let detached = Cell::new(0u32);
    let client = t.drop(|s| {
        detached.set(s);
        Err(2)
    });
    assert_eq!(client, 42);
    assert_eq!(detached.get(), 6);
}

#[test]
fn drop_unplugged_target_sends_nothing() {
    let t = fresh();
    let called = Cell::new(false);
    let client = t.drop(|_| {
        called.set(true);
        Ok(())
    });
    assert_eq!(client, 42);
    assert!(!called.get());
}
