use geomind_supervisor::supervisor::{StartError, Supervisor};

#[test]
fn fresh_supervisor_is_idle() {
    let mut sup = Supervisor::new();
    assert!(!sup.is_running());
    assert!(!sup.is_mid_launch());
    assert_eq!(sup.stop(), None);
}

#[test]
fn start_stores_the_handle() {
    let mut sup = Supervisor::new();
    assert_eq!(sup.begin_start(), Ok(()));
    assert!(sup.is_mid_launch());
    assert!(!sup.is_running());
    sup.launched(41);
    assert!(sup.is_running());
    assert!(!sup.is_mid_launch());
    assert_eq!(sup.slot, Some(41));
}

#[test]
fn second_start_is_rejected_and_handle_intact() {
    let mut sup = Supervisor::new();
    assert_eq!(sup.begin_start(), Ok(()));
    sup.launched(7);
    assert_eq!(sup.begin_start(), Err(StartError::AlreadyRunning));
    assert_eq!(sup.slot, Some(7));
    assert_eq!(sup.stop(), Some(7));
}

#[test]
fn start_while_launch_in_flight_is_rejected() {
    let mut sup = Supervisor::new();
    assert_eq!(sup.begin_start(), Ok(()));
    assert_eq!(sup.begin_start(), Err(StartError::AlreadyRunning));
    assert!(sup.is_mid_launch());
}

#[test]
fn only_first_stop_takes_a_handle() {
    let mut sup = Supervisor::new();
    assert_eq!(sup.begin_start(), Ok(()));
    sup.launched(19);
    assert_eq!(sup.stop(), Some(19));
    assert_eq!(sup.stop(), None);
    assert_eq!(sup.stop(), None);
    assert!(!sup.is_running());
}

#[test]
fn restart_after_stop_succeeds() {
    let mut sup = Supervisor::new();
    assert_eq!(sup.begin_start(), Ok(()));
    sup.launched(3);
    assert_eq!(sup.stop(), Some(3));
    assert_eq!(sup.begin_start(), Ok(()));
    sup.launched(9);
    assert!(sup.is_running());
    assert_eq!(sup.stop(), Some(9));
}

#[test]
fn spawn_failure_leaves_the_slot_empty() {
    let mut sup = Supervisor::new();
    assert_eq!(sup.begin_start(), Ok(()));
    let err = sup.launch_failed(String::from("node not found"));
    assert_eq!(err, StartError::Spawn(String::from("node not found")));
    assert!(!sup.is_running());
    assert!(!sup.is_mid_launch());
    assert_eq!(sup.stop(), None);
    assert_eq!(sup.begin_start(), Ok(()));
}
