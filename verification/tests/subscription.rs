use std::sync::atomic::{AtomicUsize, Ordering};
use std::sync::{Arc, Mutex};

use winaudio::{release_outcome, Error, SubscriptionHandle};

const E_FAIL: i32 = -2147467259;
const E_NOTFOUND: i32 = -2147023728;

/// A registrar that counts what it is asked to do.
struct Registrar {
    registered: Mutex<Vec<u32>>,
    register_calls: AtomicUsize,
    unregister_calls: AtomicUsize,
    refuses: bool,
}

impl Registrar {
    fn new(refuses: bool) -> Arc<Registrar> {
        Arc::new(Registrar {
            registered: Mutex::new(Vec::new()),
            register_calls: AtomicUsize::new(0),
            unregister_calls: AtomicUsize::new(0),
            refuses,
        })
    }

    fn register_notification(&self, adapter: u32) -> i32 {
        self.register_calls.fetch_add(1, Ordering::SeqCst);
        if self.refuses {
            return E_FAIL;
        }
        self.registered.lock().unwrap().push(adapter);
        0
    }

    fn unregister_notification(&self, adapter: u32) -> i32 {
        self.unregister_calls.fetch_add(1, Ordering::SeqCst);
        let mut registered = self.registered.lock().unwrap();
        match registered.iter().position(|a| *a == adapter) {
            Some(at) => {
                registered.remove(at);
                0
            }
            None => E_NOTFOUND,
        }
    }

    fn unregistrations(&self) -> usize {
        self.unregister_calls.load(Ordering::SeqCst)
    }
}

/// The handle as a caller holds it: it performs what the library decides.
struct Guard {
    handle: SubscriptionHandle<u32, Arc<Registrar>>,
}

impl Guard {
    fn register(registrar: &Arc<Registrar>, adapter: u32) -> Result<Guard, Error> {
        let status = registrar.register_notification(adapter);
        let handle = SubscriptionHandle::from_registration(registrar.clone(), adapter, status)?;
        Ok(Guard { handle })
    }

    fn release(mut self) -> Result<(), Error> {
        if self.handle.take_unregistration() {
            let status = self
                .handle
                .registrar()
                .unregister_notification(*self.handle.adapter());
            release_outcome(status)
        } else {
            Ok(())
        }
    }
}

impl Drop for Guard {
    fn drop(&mut self) {
        if self.handle.take_unregistration() {
            let _ = self
                .handle
                .registrar()
                .unregister_notification(*self.handle.adapter());
        }
    }
}

#[test]
fn release_unregisters_exactly_once() {
    let registrar = Registrar::new(false);
    let guard = Guard::register(&registrar, 7).unwrap();
    assert_eq!(registrar.unregistrations(), 0);
    assert_eq!(*registrar.registered.lock().unwrap(), vec![7]);
    assert_eq!(guard.release(), Ok(()));
    assert_eq!(registrar.unregistrations(), 1);
    assert!(registrar.registered.lock().unwrap().is_empty());
}

#[test]
fn discarding_unregisters_exactly_once() {
    let registrar = Registrar::new(false);
    {
        let _guard = Guard::register(&registrar, 7).unwrap();
        assert_eq!(registrar.unregistrations(), 0);
    }
    assert_eq!(registrar.unregistrations(), 1);
    assert!(registrar.registered.lock().unwrap().is_empty());
}

#[test]
fn early_return_unregisters_exactly_once() {
    fn leaves_early(registrar: &Arc<Registrar>) -> Result<(), Error> {
        let _guard = Guard::register(registrar, 3)?;
        Err(Error::Unsupported)
    }
    let registrar = Registrar::new(false);
    assert_eq!(leaves_early(&registrar), Err(Error::Unsupported));
    assert_eq!(registrar.unregistrations(), 1);
}

#[test]
fn failed_registration_gives_no_handle() {
    let registrar = Registrar::new(true);
    let result = Guard::register(&registrar, 7);
    assert!(matches!(result, Err(Error::NativeFailure(E_FAIL))));
    assert_eq!(registrar.register_calls.load(Ordering::SeqCst), 1);
    assert_eq!(registrar.unregistrations(), 0);
}

#[test]
fn from_registration_reads_the_status() {
    let ok = SubscriptionHandle::from_registration("registrar", 5u8, 0);
    let handle = ok.unwrap();
    assert!(handle.is_registered());
    assert_eq!(*handle.adapter(), 5);
    assert_eq!(*handle.registrar(), "registrar");
    let also_ok = SubscriptionHandle::from_registration("registrar", 5u8, 1);
    assert!(also_ok.unwrap().is_registered());
    let failed = SubscriptionHandle::from_registration("registrar", 5u8, -1);
    assert!(matches!(failed, Err(Error::NativeFailure(-1))));
    let failed = SubscriptionHandle::from_registration("registrar", 5u8, i32::MIN);
    assert!(matches!(failed, Err(Error::NativeFailure(i32::MIN))));
}

#[test]
fn unregistration_is_due_once() {
    let mut handle = SubscriptionHandle::from_registration((), 1u8, 0).unwrap();
    assert!(handle.is_registered());
    assert!(handle.take_unregistration());
    assert!(!handle.is_registered());
    assert!(!handle.take_unregistration());
    assert!(!handle.take_unregistration());
    assert!(!handle.is_registered());
    assert_eq!(*handle.adapter(), 1);
}

#[test]
fn release_keeps_what_the_handle_holds() {
    let mut handle = SubscriptionHandle::from_registration("parent", "adapter", 0).unwrap();
    handle.take_unregistration();
    assert_eq!(*handle.adapter(), "adapter");
    assert_eq!(*handle.registrar(), "parent");
}

#[test]
fn failed_unregistration_is_reported_on_release() {
    let registrar = Registrar::new(false);
    let guard = Guard::register(&registrar, 7).unwrap();
    registrar.registered.lock().unwrap().clear();
    assert_eq!(guard.release(), Err(Error::UnregisterFailed));
    assert_eq!(registrar.unregistrations(), 1);
}

#[test]
fn failed_unregistration_is_dropped_on_disposal() {
    let registrar = Registrar::new(false);
    {
        let _guard = Guard::register(&registrar, 7).unwrap();
        registrar.registered.lock().unwrap().clear();
    }
    assert_eq!(registrar.unregistrations(), 1);
}

#[test]
fn release_outcome_reads_the_status() {
    assert_eq!(release_outcome(0), Ok(()));
    assert_eq!(release_outcome(1), Ok(()));
    assert_eq!(release_outcome(-1), Err(Error::UnregisterFailed));
    assert_eq!(release_outcome(E_NOTFOUND), Err(Error::UnregisterFailed));
    assert_eq!(release_outcome(i32::MIN), Err(Error::UnregisterFailed));
}

#[test]
fn two_registrations_are_unregistered_each_once() {
    let registrar = Registrar::new(false);
    let first = Guard::register(&registrar, 1).unwrap();
    let second = Guard::register(&registrar, 2).unwrap();
    assert_eq!(first.release(), Ok(()));
    assert_eq!(*registrar.registered.lock().unwrap(), vec![2]);
    drop(second);
    assert_eq!(registrar.unregistrations(), 2);
    assert!(registrar.registered.lock().unwrap().is_empty());
}
