use chicken_door::actuator::Direction;
use chicken_door::controller::{DoorController, DoorState, Outcome, Report};
use chicken_door::door::{close, open};

fn in_flight(door: &DoorController) -> bool {
    matches!(door.current_state(), DoorState::Closing | DoorState::Opening)
}

fn open_door() -> DoorController {
    let mut door = DoorController::new();
    assert_eq!(door.request_open(), Outcome::Actuate(Direction::Opening));
    assert_eq!(door.finish(Report::Completed), DoorState::Open);
    door
}

#[test]
fn new_controller_is_closed() {
    let door = DoorController::new();
    assert_eq!(door.current_state(), DoorState::Closed);
    assert!(!in_flight(&door));
}

#[test]
fn closing_twice_runs_one_sequence() {
    let mut door = open_door();
    let mut sequences = 0;
    for _ in 0..2 {
        if let Outcome::Actuate(towards) = door.request_close() {
            assert_eq!(towards, Direction::Closing);
            assert_eq!(door.current_state(), DoorState::Closing);
            sequences += 1;
            door.finish(Report::Completed);
        }
    }
    assert_eq!(sequences, 1);
    assert_eq!(door.current_state(), DoorState::Closed);
}

#[test]
fn second_close_reports_already_closed() {
    let mut door = open_door();
    assert_eq!(door.request_close(), Outcome::Actuate(Direction::Closing));
    assert_eq!(door.finish(Report::Completed), DoorState::Closed);
    assert_eq!(door.request_close(), Outcome::AlreadyClosed);
    assert_eq!(door.current_state(), DoorState::Closed);
}

#[test]
fn opening_an_open_door_drives_nothing() {
    let mut door = open_door();
    assert_eq!(door.request_open(), Outcome::AlreadyOpen);
    assert_eq!(door.current_state(), DoorState::Open);
    assert_eq!(open(Some(&mut door)), Outcome::AlreadyOpen);
    assert_eq!(door.current_state(), DoorState::Open);
}

#[test]
fn opening_a_closed_door_starts_the_opening_sequence() {
    let mut door = DoorController::new();
    assert_eq!(open(Some(&mut door)), Outcome::Actuate(Direction::Opening));
    assert_eq!(door.current_state(), DoorState::Opening);
    assert!(in_flight(&door));
    assert_eq!(door.finish(Report::Completed), DoorState::Open);
}

#[test]
fn close_command_starts_the_closing_sequence() {
    let mut door = open_door();
    assert_eq!(close(Some(&mut door)), Outcome::Actuate(Direction::Closing));
    assert_eq!(door.current_state(), DoorState::Closing);
    assert_eq!(door.finish(Report::Completed), DoorState::Closed);
}

#[test]
fn requests_in_flight_are_turned_away() {
    let mut door = DoorController::new();
    assert_eq!(door.request_open(), Outcome::Actuate(Direction::Opening));
    assert_eq!(door.request_open(), Outcome::InProgress);
    assert_eq!(door.request_close(), Outcome::InProgress);
    assert_eq!(close(Some(&mut door)), Outcome::InProgress);
    assert_eq!(door.current_state(), DoorState::Opening);
    door.finish(Report::Completed);

    assert_eq!(door.request_close(), Outcome::Actuate(Direction::Closing));
    assert_eq!(door.request_close(), Outcome::InProgress);
    assert_eq!(door.request_open(), Outcome::InProgress);
    assert_eq!(open(Some(&mut door)), Outcome::InProgress);
    assert_eq!(door.current_state(), DoorState::Closing);
}

#[test]
fn sequences_never_overlap_under_interleaved_requests() {
    let mut door = DoorController::new();
    let mut running = 0;
    let script = [0u8, 1, 0, 2, 1, 1, 0, 2, 2, 0, 1, 2, 1, 0, 0, 2, 1, 2];
    for event in script {
        match event {
            0 => {
                if let Outcome::Actuate(_) = door.request_open() {
                    running += 1;
                }
            }
            1 => {
                if let Outcome::Actuate(_) = door.request_close() {
                    running += 1;
                }
            }
            _ => {
                if in_flight(&door) {
                    running -= 1;
                }
                door.finish(Report::Completed);
            }
        }
        assert!(running == 0 || running == 1);
        assert_eq!(running == 1, in_flight(&door));
    }
}

#[test]
fn without_the_lock_nothing_is_done() {
    assert_eq!(close(None), Outcome::LockUnavailable);
    assert_eq!(open(None), Outcome::LockUnavailable);
}

#[test]
fn unconfirmed_opening_still_leaves_the_door_open() {
    let mut door = DoorController::new();
    assert_eq!(door.request_open(), Outcome::Actuate(Direction::Opening));
    assert_eq!(door.finish(Report::Unconfirmed), DoorState::Open);
    assert_eq!(door.current_state(), DoorState::Open);
}

#[test]
fn missing_hardware_leaves_the_state_as_it_was() {
    let mut door = DoorController::new();
    assert_eq!(door.request_open(), Outcome::Actuate(Direction::Opening));
    assert_eq!(door.finish(Report::HardwareUnavailable), DoorState::Closed);
    assert_eq!(door.request_open(), Outcome::Actuate(Direction::Opening));
    assert_eq!(door.finish(Report::Completed), DoorState::Open);

    assert_eq!(door.request_close(), Outcome::Actuate(Direction::Closing));
    assert_eq!(door.finish(Report::HardwareUnavailable), DoorState::Open);
    assert_eq!(door.request_close(), Outcome::Actuate(Direction::Closing));
}

#[test]
fn report_without_a_sequence_changes_nothing() {
    let mut door = DoorController::new();
    assert_eq!(door.finish(Report::Completed), DoorState::Closed);
    assert_eq!(door.finish(Report::HardwareUnavailable), DoorState::Closed);
    let mut door = open_door();
    assert_eq!(door.finish(Report::Unconfirmed), DoorState::Open);
    assert_eq!(door.finish(Report::HardwareUnavailable), DoorState::Open);
}
