use machining_sim::chains::{CEC, FEC};
use machining_sim::models::{BlockType, Transaction};

fn at(id: i64, time: i64) -> Transaction {
    Transaction::new(id, time)
}

#[test]
fn transaction_new_starts_before_the_route() {
    let t = Transaction::new(7, 42);
    assert_eq!(t.get_id(), 7);
    assert_eq!(t.get_time(), 42);
    assert_eq!(t.get_current_block(), BlockType::Initial);
    assert_eq!(t.next_block, BlockType::Generate);
    assert_eq!(t.robot_wait_start, 0);
}

#[test]
fn transaction_setters_change_one_field() {
    let mut t = Transaction::new(1, 10);
    t.set_time(25);
    t.set_current_block(BlockType::EnterMachiningCenter);
    t.set_next_block(BlockType::AdvanceMachiningCenter);
    assert_eq!(t.id, 1);
    assert_eq!(t.time, 25);
    assert_eq!(t.current_block, BlockType::EnterMachiningCenter);
    assert_eq!(t.next_block, BlockType::AdvanceMachiningCenter);
}

#[test]
fn block_codes_follow_the_route() {
    let route = [
        BlockType::Initial,
        BlockType::Generate,
        BlockType::SeizeRobotToMachiningCenter,
        BlockType::AdvanceRobotToMachiningCenter,
        BlockType::ReleaseRobotToMachiningCenter,
        BlockType::EnterMachiningCenter,
        BlockType::AdvanceMachiningCenter,
        BlockType::LeaveMachiningCenter,
        BlockType::SeizeRobotToConveyor,
        BlockType::AdvanceRobotToConveyor,
        BlockType::ReleaseRobotToConveyor,
        BlockType::Terminate,
    ];
    for (i, b) in route.iter().enumerate() {
        assert_eq!(b.code(), i as i32);
    }
}

#[test]
fn fec_pops_earliest_first_and_first_added_among_equals() {
    let mut fec = FEC::new();
    assert!(fec.is_empty());
    fec.add(at(1, 50));
    fec.add(at(2, 30));
    fec.add(at(3, 30));
    fec.add(at(4, 70));
    assert!(!fec.is_empty());
    assert_eq!(fec.peek().map(|t| t.id), Some(2));
    assert_eq!(fec.pop().map(|t| t.id), Some(2));
    assert_eq!(fec.peek().map(|t| t.id), Some(3));
    assert_eq!(fec.pop().map(|t| t.id), Some(3));
    assert_eq!(fec.pop().map(|t| t.id), Some(1));
    assert_eq!(fec.pop().map(|t| t.id), Some(4));
    assert_eq!(fec.pop(), None);
    assert!(fec.peek().is_none());
    assert!(fec.is_empty());
}

#[test]
fn fec_add_earlier_than_all_is_popped_next() {
    let mut fec = FEC::new();
    fec.add(at(1, 50));
    fec.add(at(2, 40));
    fec.add(at(3, 10));
    assert_eq!(fec.pop(), Some(at(3, 10)));
    assert_eq!(fec.events, vec![at(1, 50), at(2, 40)]);
}

#[test]
fn fec_handles_negative_times() {
    let mut fec = FEC::new();
    fec.add(at(1, 0));
    fec.add(at(2, -5));
    assert_eq!(fec.pop().map(|t| t.id), Some(2));
}

#[test]
fn cec_is_a_deque() {
    let mut cec = CEC::new();
    assert!(cec.is_empty());
    cec.add_to_back(at(1, 0));
    cec.add_to_back(at(2, 0));
    cec.add_to_front(at(3, 0));
    assert!(!cec.is_empty());
    assert_eq!(cec.pop_front().map(|t| t.id), Some(3));
    assert_eq!(cec.pop_front().map(|t| t.id), Some(1));
    assert_eq!(cec.pop_front().map(|t| t.id), Some(2));
    assert_eq!(cec.pop_front(), None);
    assert!(cec.is_empty());
}
