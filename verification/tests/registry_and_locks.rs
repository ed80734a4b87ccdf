use titan_core::arclock::ArcLock;
use titan_core::channels::Channels;
use titan_core::counter::CounterSubsystem;
use titan_core::errors::CoreError;
use titan_core::subsystem::ErasedSubsystemRef;
use titan_core::subsystem::Subsystem;
use titan_core::subsystem::SubsystemRef;
use titan_core::tasks::TasksSubsystem;

#[test]
fn get_for_a_never_registered_key_fails() {
    let registry: Channels<u64> = Channels::new();
    assert_eq!(registry.get(7), Err(CoreError::RegistrationMissing));
}

#[test]
fn registered_keys_are_found() {
    let mut registry: Channels<u64> = Channels::new();
    assert_eq!(registry.add(7, 40), Ok(()));
    assert!(registry.contains(7));
    assert_eq!(registry.get(7), Ok(&40));
    assert_eq!(registry.get(8), Err(CoreError::RegistrationMissing));
}

#[test]
fn duplicate_registration_is_rejected() {
    let mut registry: Channels<u64> = Channels::new();
    assert_eq!(registry.add(7, 40), Ok(()));
    assert_eq!(registry.add(7, 41), Err(CoreError::DuplicateRegistration));
    assert_eq!(registry.get(7), Ok(&40));
}

#[test]
fn subsystem_keys_survive_erasure() {
    let counter_ref = SubsystemRef::<CounterSubsystem>::new();
    let tasks_ref = SubsystemRef::<TasksSubsystem>::new();
    assert_eq!(counter_ref.erased_key(), CounterSubsystem::key());
    assert_eq!(tasks_ref.erased_key(), TasksSubsystem::key());
    assert_ne!(counter_ref.erased_key(), tasks_ref.erased_key());

    let mut registry: Channels<&'static str> = Channels::new();
    assert_eq!(
        registry.add(counter_ref.erased_key(), CounterSubsystem::name()),
        Ok(())
    );
    assert_eq!(
        registry.add(tasks_ref.erased_key(), TasksSubsystem::name()),
        Ok(())
    );
    assert_eq!(
        registry.get(CounterSubsystem::key()),
        Ok(&"CounterSubsystem")
    );
}

#[test]
fn get_mut_edits_the_registered_capability() {
    let mut registry: Channels<u64> = Channels::new();
    assert_eq!(registry.add(7, 40), Ok(()));
    assert_eq!(registry.add(9, 1), Ok(()));
    match registry.get_mut(7) {
        Ok(v) => *v += 2,
        Err(_) => panic!("key 7 is registered"),
    }
    assert_eq!(registry.get(7), Ok(&42));
    assert_eq!(registry.get(9), Ok(&1));
    assert_eq!(registry.get_mut(8).err(), Some(CoreError::RegistrationMissing));
}

#[test]
fn writer_excludes_readers_and_writers() {
    let mut lock = ArcLock::new(5u64);
    let write_pass = lock.lock_sync().expect("a fresh lock grants the writer");
    assert!(matches!(lock.lock_sync(), Err(CoreError::LockContention)));
    assert!(matches!(lock.read_sync(), Err(CoreError::LockContention)));
    *lock.borrow_mut() = 6;
    lock.release_write(write_pass);
    let read_pass = lock.read_sync().expect("a free lock grants a reader");
    assert_eq!(*lock.borrow(), 6);
    lock.release_read(read_pass);
}

#[test]
fn readers_share_but_block_the_writer() {
    let mut lock = ArcLock::new(1u64);
    let first = lock.read_sync().expect("first reader");
    let second = lock.read_sync().expect("second reader");
    assert!(matches!(lock.lock_sync(), Err(CoreError::LockContention)));
    lock.release_read(first);
    assert!(matches!(lock.lock_sync(), Err(CoreError::LockContention)));
    lock.release_read(second);
    let pass = lock.lock_sync().expect("the lock is free again");
    lock.release_write(pass);
}

#[test]
fn write_replaces_the_guarded_value() {
    let mut lock = ArcLock::new(1u64);
    lock.write(9);
    assert_eq!(lock.into_inner(), 9);
}

#[test]
fn error_descriptions_are_stable() {
    assert_eq!(
        CoreError::LockContention.describe(),
        "the lock is held and the attempt may not suspend"
    );
    assert_eq!(
        CoreError::TaskCancelled.describe(),
        "the reply slot was abandoned before it was answered"
    );
    assert_eq!(
        CoreError::RegistrationMissing.describe(),
        "no subsystem was registered under this key"
    );
    assert_eq!(
        CoreError::DuplicateRegistration.describe(),
        "a subsystem was already registered under this key"
    );
}
