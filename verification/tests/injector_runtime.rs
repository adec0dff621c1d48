use injector::{Injector, InjectorError};

fn own_pid() -> i32 {
    procfs::process::Process::myself().expect("own process metadata").pid
}

#[test]
fn new_fails_for_a_nonexistent_pid() {
    let r = Injector::new(-1, vec![0x90]);
    assert!(matches!(r, Err(InjectorError::CanNotCreate(_))));
}

#[test]
fn new_fails_for_pid_zero() {
    let r = Injector::new(0, vec![0x90]);
    assert!(matches!(r, Err(InjectorError::CanNotCreate(_))));
}

#[test]
fn new_succeeds_for_a_live_process() {
    let r = Injector::new(own_pid(), vec![0x90, 0xc3]);
    assert!(r.is_ok());
}

#[test]
fn detach_without_prior_attach_is_refused() {
    let mut inj = Injector::new(own_pid(), vec![0x90]).expect("constructed");
    let r = inj.detach();
    assert!(matches!(r, Err(InjectorError::CanNotDetach(_))));
}

#[test]
fn attach_to_the_calling_process_is_denied_by_the_kernel() {
    let mut inj = Injector::new(own_pid(), vec![0x90]).expect("constructed");
    let r = inj.attach();
    assert!(matches!(r, Err(InjectorError::CanNotAttach(_))));
    let again = inj.detach();
    assert!(matches!(again, Err(InjectorError::CanNotDetach(_))));
}

#[test]
fn inject_surfaces_the_attach_denial_and_stops() {
    let mut inj = Injector::new(own_pid(), vec![0x90, 0xc3]).expect("constructed");
    let r = inj.inject();
    assert!(matches!(r, Err(InjectorError::CanNotAttach(_))));
}

#[test]
fn find_destination_region_reads_the_live_mapping_list() {
    let inj = Injector::new(own_pid(), vec![0x90]).expect("constructed");
    let found = inj.find_destination_region().expect("mapping list is readable");
    let region = found.expect("a one-byte payload fits some mapped code segment");
    assert!(region.end - region.start >= 1);
    assert!(region.perms.readable);
    assert!(!region.perms.writable);
    assert!(region.perms.executable);
    assert!(region.perms.private);
}

#[test]
fn cont_without_prior_attach_is_refused() {
    let inj = Injector::new(own_pid(), vec![0x90]).expect("constructed");
    let r = inj.cont();
    assert!(matches!(r, Err(InjectorError::CanNotCont(_))));
}

#[test]
fn each_error_kind_has_its_own_message() {
    assert_eq!(
        InjectorError::CanNotCreate(2).message(),
        "Can't create Injector object (maybe invalid pid)"
    );
    assert_eq!(InjectorError::CanNotAttach(1).message(), "Can't attach the process.");
    assert_eq!(InjectorError::CanNotDetach(3).message(), "Can't detach the process.");
    assert_eq!(InjectorError::CanNotCont(0).message(), "Can't continue the process.");
    assert_eq!(
        InjectorError::CanNotGetRegister(5).message(),
        "Can't get register from the process."
    );
    assert_eq!(
        InjectorError::CanNotSetRegister(5).message(),
        "Can't set register to the process."
    );
    assert_eq!(
        InjectorError::CanNotGetMemoryMap(13).message(),
        "Can't get the process memory mapping."
    );
    assert_eq!(InjectorError::CanNotInjectCode(14).message(), "Can't inject to the process.");
}

#[test]
fn error_codes_are_kept_for_diagnostics() {
    assert_eq!(InjectorError::CanNotAttach(13).code(), 13);
    assert_eq!(InjectorError::CanNotInjectCode(0).code(), 0);
    assert_eq!(InjectorError::CanNotCreate(-2).code(), -2);
}

#[test]
fn error_values_carry_their_code() {
    let e = InjectorError::CanNotAttach(13);
    assert_eq!(e, InjectorError::CanNotAttach(13));
    assert_ne!(e, InjectorError::CanNotAttach(1));
    assert_ne!(e, InjectorError::CanNotDetach(13));
}
