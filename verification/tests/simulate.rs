use machining_sim::models::{BlockType, Transaction};
use machining_sim::state::simulate::{IterationStart, SampleSource, SIMULATION_HORIZON};
use machining_sim::state::SystemState;

fn at_block(id: i64, time: i64, block: BlockType) -> Transaction {
    let mut t = Transaction::new(id, time);
    t.set_current_block(block);
    t
}

fn moved(t: Transaction, current: BlockType, next: BlockType) -> Transaction {
    let mut u = t;
    u.set_current_block(current);
    u.set_next_block(next);
    u
}

#[test]
fn new_state_is_empty_at_time_zero() {
    let s = SystemState::new(2);
    assert_eq!(s.get_current_time(), 0);
    assert_eq!(s.get_resource(), 2);
    assert_eq!(s.get_machines_busy_count(), 0);
    assert_eq!(s.get_count_of_completed_details(), 0);
    assert!(s.fec.is_empty());
    assert!(s.cec.is_empty());
    assert!(s.robot_queue.is_empty());
    assert!(s.machines_queue.is_empty());
    assert!(!s.robot_is_busy());
}

#[test]
fn robot_is_busy_until_its_moment() {
    let mut s = SystemState::new(1);
    s.set_robot_busy_until(10);
    assert!(s.robot_is_busy());
    s.set_current_time(10);
    assert!(!s.robot_is_busy());
}

#[test]
fn completed_count_increments() {
    let mut s = SystemState::new(1);
    s.inc_count_of_completed_details();
    s.inc_count_of_completed_details();
    assert_eq!(s.get_count_of_completed_details(), 2);
}

#[test]
fn initial_block_keeps_nothing() {
    let mut s = SystemState::new(1);
    let t = Transaction::new(1, 0);
    assert_eq!(s.sample_needed(&t), None);
    s.execute_block(t, 0);
    assert!(s.fec.is_empty());
    assert!(s.cec.is_empty());
}

#[test]
fn generate_schedules_the_next_arrival() {
    let mut s = SystemState::new(1);
    s.set_current_time(100);
    let t = at_block(4, 100, BlockType::Generate);
    assert_eq!(s.sample_needed(&t), Some(SampleSource::Arrival));
    s.execute_block(t, 35);
    assert_eq!(s.fec.events, vec![Transaction::new(5, 135)]);
    assert_eq!(
        s.cec.pop_front(),
        Some(moved(
            t,
            BlockType::SeizeRobotToMachiningCenter,
            BlockType::AdvanceRobotToMachiningCenter
        ))
    );
}

#[test]
fn seize_queues_for_the_robot() {
    let mut s = SystemState::new(1);
    let t = at_block(1, 0, BlockType::SeizeRobotToMachiningCenter);
    s.execute_block(t, 0);
    let u = moved(
        t,
        BlockType::AdvanceRobotToMachiningCenter,
        BlockType::ReleaseRobotToMachiningCenter,
    );
    assert_eq!(s.robot_queue.front(), Some(&u));
    assert_eq!(s.cec.pop_front(), Some(u));
}

#[test]
fn advance_waits_while_the_robot_is_busy() {
    let mut s = SystemState::new(1);
    s.set_robot_busy_until(50);
    let t = at_block(1, 0, BlockType::AdvanceRobotToMachiningCenter);
    assert_eq!(s.sample_needed(&t), None);
    s.execute_block(t, 99);
    assert_eq!(s.fec.events, vec![t]);
}

#[test]
fn advance_carries_the_piece_when_the_robot_is_free() {
    let mut s = SystemState::new(1);
    let t = at_block(1, 20, BlockType::AdvanceRobotToMachiningCenter);
    assert_eq!(s.sample_needed(&t), Some(SampleSource::Robot));
    s.execute_block(t, 15);
    let mut u = moved(
        t,
        BlockType::ReleaseRobotToMachiningCenter,
        BlockType::EnterMachiningCenter,
    );
    u.set_time(35);
    assert_eq!(s.fec.events, vec![u]);
}

#[test]
fn release_moves_the_piece_to_the_machining_queue() {
    let mut s = SystemState::new(1);
    let first = at_block(9, 0, BlockType::AdvanceRobotToMachiningCenter);
    s.add_to_robot_queue(first);
    s.set_current_time(30);
    let t = at_block(1, 30, BlockType::ReleaseRobotToMachiningCenter);
    s.execute_block(t, 0);
    let u = moved(t, BlockType::EnterMachiningCenter, BlockType::AdvanceMachiningCenter);
    assert!(s.robot_queue.is_empty());
    assert_eq!(s.machines_queue.back(), Some(&u));
    assert_eq!(s.cec.pop_front(), Some(u));
    assert_eq!(s.last_queue_change_time, 30);
    assert_eq!(s.total_queue_length_time, 0);
}

#[test]
fn enter_respects_the_number_of_centres() {
    let mut s = SystemState::new(1);
    let t = at_block(1, 0, BlockType::EnterMachiningCenter);
    s.execute_block(t, 0);
    assert_eq!(s.get_machines_busy_count(), 1);
    assert_eq!(
        s.cec.pop_front(),
        Some(moved(t, BlockType::AdvanceMachiningCenter, BlockType::LeaveMachiningCenter))
    );
    let t2 = at_block(2, 0, BlockType::EnterMachiningCenter);
    s.execute_block(t2, 0);
    assert_eq!(s.get_machines_busy_count(), 1);
    assert!(s.cec.is_empty());
}

#[test]
fn machining_puts_the_piece_off() {
    let mut s = SystemState::new(1);
    let t = at_block(1, 10, BlockType::AdvanceMachiningCenter);
    assert_eq!(s.sample_needed(&t), Some(SampleSource::Machine));
    s.execute_block(t, 200);
    let mut u = moved(t, BlockType::LeaveMachiningCenter, BlockType::SeizeRobotToConveyor);
    u.set_time(210);
    assert_eq!(s.fec.events, vec![u]);
}

#[test]
fn leave_frees_a_centre() {
    let mut s = SystemState::new(2);
    s.set_machines_busy_count(2);
    s.machines_queue.push_back(Transaction::new(8, 0));
    let t = at_block(1, 0, BlockType::LeaveMachiningCenter);
    s.execute_block(t, 0);
    assert_eq!(s.get_machines_busy_count(), 1);
    assert!(s.machines_queue.is_empty());
    assert_eq!(
        s.cec.pop_front(),
        Some(moved(t, BlockType::SeizeRobotToConveyor, BlockType::AdvanceRobotToConveyor))
    );
}

#[test]
fn leave_waits_while_the_robot_is_busy() {
    let mut s = SystemState::new(2);
    s.set_machines_busy_count(1);
    s.set_robot_busy_until(5);
    let t = at_block(1, 0, BlockType::LeaveMachiningCenter);
    s.execute_block(t, 0);
    assert_eq!(s.get_machines_busy_count(), 1);
    assert_eq!(s.fec.events, vec![t]);
}

#[test]
fn conveyor_leg_moves_along_the_route() {
    let mut s = SystemState::new(1);
    let t = at_block(1, 0, BlockType::SeizeRobotToConveyor);
    s.execute_block(t, 0);
    let u = moved(t, BlockType::AdvanceRobotToConveyor, BlockType::ReleaseRobotToConveyor);
    assert_eq!(s.cec.pop_front(), Some(u));
    assert_eq!(s.robot_queue.back(), Some(&u));

    assert_eq!(s.sample_needed(&u), Some(SampleSource::Robot));
    s.execute_block(u, 12);
    let mut v = moved(u, BlockType::ReleaseRobotToConveyor, BlockType::Terminate);
    v.set_time(12);
    assert_eq!(s.fec.events, vec![v]);
}

#[test]
fn release_to_conveyor_waits_for_its_time() {
    let mut s = SystemState::new(1);
    s.add_to_robot_queue(Transaction::new(5, 0));
    let early = at_block(1, 40, BlockType::ReleaseRobotToConveyor);
    s.execute_block(early, 0);
    assert_eq!(s.robot_queue.len(), 1);
    assert!(s.cec.is_empty());

    s.set_current_time(40);
    s.execute_block(early, 0);
    assert!(s.robot_queue.is_empty());
    assert_eq!(
        s.cec.pop_front(),
        Some(moved(early, BlockType::Terminate, BlockType::Terminate))
    );
}

#[test]
fn terminate_counts_the_piece_and_removes_the_next_ready_one() {
    let mut s = SystemState::new(1);
    s.cec.add_to_back(Transaction::new(7, 0));
    s.cec.add_to_back(Transaction::new(8, 0));
    s.execute_block(at_block(1, 0, BlockType::Terminate), 0);
    assert_eq!(s.get_count_of_completed_details(), 1);
    assert_eq!(s.next_current().map(|t| t.id), Some(8));
    assert_eq!(s.next_current(), None);
    s.execute_block(at_block(2, 0, BlockType::Terminate), 0);
    assert_eq!(s.get_count_of_completed_details(), 2);
    assert_eq!(s.next_current(), None);
}

#[test]
fn schedule_adds_to_the_future_chain() {
    let mut s = SystemState::new(1);
    s.schedule(Transaction::new(3, 40));
    assert_eq!(s.fec.events, vec![Transaction::new(3, 40)]);
}

#[test]
fn queue_stats_integrate_length_over_time() {
    let mut s = SystemState::new(1);
    s.add_to_machines_queue(Transaction::new(1, 0));
    s.set_current_time(30);
    s.add_to_machines_queue(Transaction::new(2, 0));
    assert_eq!(s.total_queue_length_time, 30);
    s.set_current_time(50);
    s.update_machines_queue_stats();
    assert_eq!(s.total_queue_length_time, 70);
    assert_eq!(s.last_queue_change_time, 50);
    s.update_machines_queue_stats();
    assert_eq!(s.total_queue_length_time, 70);
    s.delete_from_machines_queue();
    assert_eq!(s.machines_queue.len(), 1);
    assert_eq!(s.total_queue_length_time, 70);
}

#[test]
fn delete_from_robot_queue_removes_the_front() {
    let mut s = SystemState::new(1);
    s.add_to_robot_queue(Transaction::new(1, 0));
    s.add_to_robot_queue(Transaction::new(2, 0));
    s.delete_from_robot_queue();
    assert_eq!(s.robot_queue.front().map(|t| t.id), Some(2));
    s.delete_from_robot_queue();
    s.delete_from_robot_queue();
    assert!(s.robot_queue.is_empty());
}

#[test]
fn iteration_finishes_when_both_chains_are_empty() {
    let mut s = SystemState::new(1);
    assert_eq!(s.begin_iteration(), IterationStart::Finished);
}

#[test]
fn iteration_corrects_the_clock_to_the_earliest_event() {
    let mut s = SystemState::new(1);
    s.set_current_time(10);
    s.schedule(Transaction::new(1, 25));
    s.schedule(Transaction::new(2, 15));
    assert_eq!(s.begin_iteration(), IterationStart::Proceed);
    assert_eq!(s.get_current_time(), 15);
    assert_eq!(s.next_due().map(|t| t.id), Some(2));
    assert_eq!(s.next_due(), None);
}

#[test]
fn iteration_clock_goes_to_the_event_not_past_it() {
    let mut s = SystemState::new(1);
    s.set_current_time(20);
    s.schedule(Transaction::new(1, 50));
    assert_eq!(s.begin_iteration(), IterationStart::Proceed);
    assert_eq!(s.get_current_time(), 50);
}

#[test]
fn iteration_keeps_the_clock_while_the_current_chain_has_work() {
    let mut s = SystemState::new(1);
    s.fec.add(Transaction::new(1, 25));
    s.cec.add_to_back(Transaction::new(2, 0));
    assert_eq!(s.begin_iteration(), IterationStart::Proceed);
    assert_eq!(s.get_current_time(), 0);
}

#[test]
fn iteration_halts_without_future_events() {
    let mut s = SystemState::new(1);
    s.cec.add_to_back(Transaction::new(2, 0));
    assert_eq!(s.begin_iteration(), IterationStart::Halted);
}

#[test]
fn iteration_finishes_at_the_horizon() {
    let mut s = SystemState::new(1);
    s.fec.add(Transaction::new(1, 25));
    s.set_current_time(SIMULATION_HORIZON);
    assert_eq!(s.begin_iteration(), IterationStart::Finished);
    assert_eq!(s.get_current_time(), SIMULATION_HORIZON);
}

#[test]
fn next_due_hands_out_only_due_transactions() {
    let mut s = SystemState::new(1);
    s.set_current_time(20);
    s.fec.add(Transaction::new(1, 30));
    s.fec.add(Transaction::new(2, 20));
    s.fec.add(Transaction::new(3, 10));
    assert_eq!(s.next_due().map(|t| t.id), Some(3));
    assert_eq!(s.next_due().map(|t| t.id), Some(2));
    assert_eq!(s.next_due(), None);
    assert_eq!(s.fec.events, vec![Transaction::new(1, 30)]);
}

#[test]
fn first_transaction_is_dropped_after_its_initial_block() {
    // A transaction that starts in the initial block leaves nothing behind,
    // so a run seeded with one arrival ends after its first iteration.
    let mut s = SystemState::new(1);
    s.fec.add(Transaction::new(1, 12));
    assert_eq!(s.begin_iteration(), IterationStart::Proceed);
    assert_eq!(s.get_current_time(), 12);
    let t = s.next_due().unwrap();
    s.execute_block(t, 0);
    assert_eq!(s.next_due(), None);
    assert_eq!(s.next_current(), None);
    assert_eq!(s.begin_iteration(), IterationStart::Finished);
}

#[test]
fn blocks_that_draw_nothing_ignore_the_sample() {
    let t = at_block(1, 0, BlockType::SeizeRobotToConveyor);
    let mut a = SystemState::new(1);
    let mut b = SystemState::new(1);
    assert_eq!(a.sample_needed(&t), None);
    a.execute_block(t, 0);
    b.execute_block(t, 12345);
    assert_eq!(a.robot_queue, b.robot_queue);
    assert_eq!(a.next_current(), b.next_current());
    assert_eq!(a.fec.events, b.fec.events);
}

#[test]
fn step_checks_report_what_execute_block_admits() {
    let mut s = SystemState::new(1);
    let leave = at_block(1, 0, BlockType::LeaveMachiningCenter);
    assert!(!s.step_is_defined(&leave, 0));
    s.set_machines_busy_count(1);
    assert!(s.step_is_defined(&leave, 0));
    let gen = at_block(i64::MAX, 0, BlockType::Generate);
    assert!(!s.step_is_defined(&gen, 0));
    let adv = at_block(1, i64::MAX, BlockType::AdvanceMachiningCenter);
    assert!(!s.step_is_defined(&adv, 1));
    assert!(s.step_is_defined(&adv, 0));
    assert!(s.queue_stats_fit());
    let term = at_block(3, 0, BlockType::Terminate);
    assert!(s.step_is_defined(&term, 0));
}
