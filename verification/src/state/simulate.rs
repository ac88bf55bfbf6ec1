use vstd::prelude::*;

use crate::chains::earliest;
use crate::models::{BlockType, Transaction};
use crate::state::{fits_i64, StateView, SystemState};

verus! {

/// Clock ticks per unit of model time.
pub const TICKS_PER_UNIT: i64 = 10;

/// The simulation stops once the clock reaches this moment (in ticks).
pub const SIMULATION_HORIZON: i64 = 1000000;

/// Which random duration a block needs before it can be executed.
#[derive(Clone, Copy, PartialEq, Eq, Debug, Structural)]
pub enum SampleSource {
    /// The time until the next work piece arrives.
    Arrival,
    /// The time the robot takes to carry a piece.
    Robot,
    /// The time a machining centre takes to machine a piece.
    Machine,
}

/// How an iteration of the simulation loop begins.
#[derive(Clone, Copy, PartialEq, Eq, Debug, Structural)]
pub enum IterationStart {
    /// The iteration runs; the clock has been corrected where needed.
    Proceed,
    /// The simulation is over: both chains are empty, or the horizon is reached.
    Finished,
    /// The future event chain is empty while the current one is not:
    /// the simulation stops without finishing.
    Halted,
}

/// The front of `q` removed, if there is one.
pub open spec fn without_front(q: Seq<Transaction>) -> Seq<Transaction> {
    if q.len() == 0 {
        q
    } else {
        q.drop_first()
    }
}

/// `t` moved to block `current`, with `next` as the block after it.
pub open spec fn moved(t: Transaction, current: BlockType, next: BlockType) -> Transaction {
    Transaction { current_block: current, next_block: next, ..t }
}

/// `t` moved as `moved` says, its time put off by `delay`.
pub open spec fn delayed(t: Transaction, delay: int, current: BlockType, next: BlockType) -> Transaction {
    Transaction { time: (t.time + delay) as i64, ..moved(t, current, next) }
}

/// The random duration that executing `t` in state `s` draws, if any.
pub open spec fn sample_needed_spec(s: StateView, t: Transaction) -> Option<SampleSource> {
    match t.current_block {
        BlockType::Generate => Some(SampleSource::Arrival),
        BlockType::AdvanceRobotToMachiningCenter => if s.robot_busy() {
            None
        } else {
            Some(SampleSource::Robot)
        },
        BlockType::AdvanceMachiningCenter => Some(SampleSource::Machine),
        BlockType::AdvanceRobotToConveyor => if s.robot_busy() {
            None
        } else {
            Some(SampleSource::Robot)
        },
        _ => None,
    }
}

/// Executing `t` in state `s` with the drawn duration `sample` stays within
/// the machine's integers (clock, transaction numbers, counters and the
/// queue-length integral) and does not release a machining centre that none holds.
pub open spec fn step_defined(s: StateView, t: Transaction, sample: int) -> bool {
    match t.current_block {
        BlockType::Generate => t.id < i64::MAX && fits_i64(sample + s.clock),
        BlockType::AdvanceRobotToMachiningCenter => !s.robot_busy() ==> fits_i64(t.time + sample),
        BlockType::ReleaseRobotToMachiningCenter => s.queue_stats_fit(),
        BlockType::EnterMachiningCenter => s.machines_busy_count != s.resource
            ==> s.machines_busy_count < usize::MAX,
        BlockType::AdvanceMachiningCenter => fits_i64(t.time + sample),
        BlockType::LeaveMachiningCenter => !s.robot_busy() ==> s.machines_busy_count > 0,
        BlockType::AdvanceRobotToConveyor => !s.robot_busy() ==> fits_i64(t.time + sample),
        BlockType::ReleaseRobotToConveyor => s.clock >= t.time ==> s.queue_stats_fit(),
        BlockType::Terminate => s.completed < i64::MAX,
        _ => true,
    }
}

/// The state after executing the block in which `t` stands, `sample` being
/// the duration drawn for it (ignored by blocks that draw none).
pub open spec fn block_step(s: StateView, t: Transaction, sample: int) -> StateView {
    match t.current_block {
        // The transaction only learns its first block; it is not kept.
        BlockType::Initial => s,
        BlockType::Generate => {
            let arrival = Transaction::fresh((t.id + 1) as i64, (sample + s.clock) as i64);
            let u = moved(
                t,
                BlockType::SeizeRobotToMachiningCenter,
                BlockType::AdvanceRobotToMachiningCenter,
            );
            StateView { fec: s.fec.push(arrival), cec: seq![u] + s.cec, ..s }
        },
        BlockType::SeizeRobotToMachiningCenter => {
            let u = moved(
                t,
                BlockType::AdvanceRobotToMachiningCenter,
                BlockType::ReleaseRobotToMachiningCenter,
            );
            StateView { robot_queue: s.robot_queue.push(u), cec: seq![u] + s.cec, ..s }
        },
        BlockType::AdvanceRobotToMachiningCenter => if s.robot_busy() {
            StateView { fec: s.fec.push(t), ..s }
        } else {
            let u = delayed(
                t,
                sample,
                BlockType::ReleaseRobotToMachiningCenter,
                BlockType::EnterMachiningCenter,
            );
            StateView { fec: s.fec.push(u), ..s }
        },
        BlockType::ReleaseRobotToMachiningCenter => {
            let u = moved(t, BlockType::EnterMachiningCenter, BlockType::AdvanceMachiningCenter);
            let released = StateView {
                robot_queue: without_front(s.robot_queue),
                cec: s.cec.push(u),
                ..s.with_queue_stats()
            };
            let counted = released.with_queue_stats();
            StateView { machines_queue: counted.machines_queue.push(u), ..counted }
        },
        // With every machining centre occupied the transaction is not kept.
        BlockType::EnterMachiningCenter => if s.machines_busy_count == s.resource {
            s
        } else {
            let u = moved(t, BlockType::AdvanceMachiningCenter, BlockType::LeaveMachiningCenter);
            StateView {
                machines_busy_count: (s.machines_busy_count + 1) as nat,
                cec: seq![u] + s.cec,
                ..s
            }
        },
        BlockType::AdvanceMachiningCenter => {
            let u = delayed(
                t,
                sample,
                BlockType::LeaveMachiningCenter,
                BlockType::SeizeRobotToConveyor,
            );
            StateView { fec: s.fec.push(u), ..s }
        },
        BlockType::LeaveMachiningCenter => if s.robot_busy() {
            StateView { fec: s.fec.push(t), ..s }
        } else {
            let u = moved(t, BlockType::SeizeRobotToConveyor, BlockType::AdvanceRobotToConveyor);
            StateView {
                machines_busy_count: (s.machines_busy_count - 1) as nat,
                machines_queue: without_front(s.machines_queue),
                cec: seq![u] + s.cec,
                ..s
            }
        },
        BlockType::SeizeRobotToConveyor => {
            let u = moved(t, BlockType::AdvanceRobotToConveyor, BlockType::ReleaseRobotToConveyor);
            StateView { robot_queue: s.robot_queue.push(u), cec: seq![u] + s.cec, ..s }
        },
        BlockType::AdvanceRobotToConveyor => if s.robot_busy() {
            StateView { fec: s.fec.push(t), ..s }
        } else {
            let u = delayed(t, sample, BlockType::ReleaseRobotToConveyor, BlockType::Terminate);
            StateView { fec: s.fec.push(u), ..s }
        },
        // Before its time the transaction is not kept.
        BlockType::ReleaseRobotToConveyor => if s.clock < t.time {
            s
        } else {
            let u = moved(t, BlockType::Terminate, BlockType::Terminate);
            StateView {
                robot_queue: without_front(s.robot_queue),
                cec: s.cec.push(u),
                ..s.with_queue_stats()
            }
        },
        // The finished piece is counted, and the front of the current event
        // chain is removed. The loop has already taken the finished piece out
        // of that chain, so what goes is the next ready transaction, as the
        // original's removal there does.
        BlockType::Terminate => StateView {
            completed: s.completed + 1,
            cec: without_front(s.cec),
            ..s
        },
    }
}


/// How an iteration begins in state `s`, and the state it leaves: with the
/// current event chain empty the clock is corrected to the time of the
/// earliest future event.
pub open spec fn iteration_start_spec(s: StateView) -> (IterationStart, StateView) {
    if s.fec.len() == 0 && s.cec.len() == 0 {
        (IterationStart::Finished, s)
    } else if s.clock >= SIMULATION_HORIZON {
        (IterationStart::Finished, s)
    } else if s.fec.len() == 0 {
        (IterationStart::Halted, s)
    } else if s.cec.len() == 0 {
        (IterationStart::Proceed, StateView { clock: s.fec[earliest(s.fec)].time as int, ..s })
    } else {
        (IterationStart::Proceed, s)
    }
}

/// The transaction that the future event chain hands out in state `s`, and
/// the state left: the earliest transaction if it is due (its time is not
/// after the clock); otherwise none, the earliest being taken out and put back.
pub open spec fn next_due_spec(s: StateView) -> (Option<Transaction>, StateView) {
    if s.fec.len() == 0 {
        (None, s)
    } else {
        let k = earliest(s.fec);
        let t = s.fec[k];
        if t.time > s.clock {
            (None, StateView { fec: s.fec.remove(k).push(t), ..s })
        } else {
            (Some(t), StateView { fec: s.fec.remove(k), ..s })
        }
    }
}

impl SystemState {
    /// Begins an iteration of the simulation loop.
    pub fn begin_iteration(&mut self) -> (r: IterationStart)
        ensures
            (r, final(self)@) == iteration_start_spec(old(self)@),
            r == IterationStart::Proceed && old(self)@.cec.len() == 0 ==> {
                &&& exists|j: int|
                    0 <= j < old(self)@.fec.len() && #[trigger] old(self)@.fec[j].time
                        == final(self)@.clock
                &&& forall|j: int|
                    0 <= j < old(self)@.fec.len() ==> final(self)@.clock
                        <= #[trigger] old(self)@.fec[j].time
            },
    {
        proof {
            crate::laws::law_iteration_clock_is_earliest_event(self@);
        }
        if self.fec.is_empty() && self.cec.is_empty() {
            return IterationStart::Finished;
        }
        if self.get_current_time() >= SIMULATION_HORIZON {
            return IterationStart::Finished;
        }
        let first_time = match self.fec.peek() {
            None => {
                return IterationStart::Halted;
            },
            Some(transaction) => transaction.get_time(),
        };
        if self.cec.is_empty() {
            // with the current chain empty, correct the clock to the first future event
            self.set_current_time(first_time);
        }
        IterationStart::Proceed
    }

    /// Takes the next due transaction out of the future event chain.
    pub fn next_due(&mut self) -> (r: Option<Transaction>)
        ensures
            (r, final(self)@) == next_due_spec(old(self)@),
            r matches Some(t) ==> {
                &&& t.time <= old(self)@.clock
                &&& forall|j: int|
                    0 <= j < old(self)@.fec.len() ==> t.time <= #[trigger] old(self)@.fec[j].time
            },
            r is None ==> forall|j: int|
                0 <= j < old(self)@.fec.len() ==> #[trigger] old(self)@.fec[j].time
                    > old(self)@.clock,
    {
        proof {
            crate::laws::law_due_transaction_is_earliest(self@);
        }
        match self.fec.pop() {
            None => None,
            Some(transaction) => {
                if transaction.get_time() > self.get_current_time() {
                    self.fec.add(transaction);
                    None
                } else {
                    Some(transaction)
                }
            },
        }
    }

    /// Takes the front transaction out of the current event chain.
    pub fn next_current(&mut self) -> (r: Option<Transaction>)
        ensures
            old(self)@.cec.len() == 0 ==> r is None && final(self)@ == old(self)@,
            old(self)@.cec.len() > 0 ==> {
                &&& r == Some(old(self)@.cec[0])
                &&& final(self)@ == (StateView { cec: old(self)@.cec.drop_first(), ..old(self)@ })
            },
    {
        self.cec.pop_front()
    }
}

impl SystemState {
    /// Whether executing `t` with the drawn duration `sample` is within what
    /// `execute_block` admits.
    pub fn step_is_defined(&self, t: &Transaction, sample: i64) -> (r: bool)
        ensures
            r == step_defined(self@, *t, sample as int),
    {
        match t.current_block {
            BlockType::Generate => t.id < i64::MAX && sample.checked_add(
                self.get_current_time(),
            ).is_some(),
            BlockType::AdvanceRobotToMachiningCenter => self.robot_is_busy() || t.time.checked_add(
                sample,
            ).is_some(),
            BlockType::ReleaseRobotToMachiningCenter => self.queue_stats_fit(),
            BlockType::EnterMachiningCenter => self.get_machines_busy_count() == self.get_resource()
                || self.get_machines_busy_count() < usize::MAX,
            BlockType::AdvanceMachiningCenter => t.time.checked_add(sample).is_some(),
            BlockType::LeaveMachiningCenter => self.robot_is_busy()
                || self.get_machines_busy_count() > 0,
            BlockType::AdvanceRobotToConveyor => self.robot_is_busy() || t.time.checked_add(
                sample,
            ).is_some(),
            BlockType::ReleaseRobotToConveyor => self.get_current_time() < t.time
                || self.queue_stats_fit(),
            BlockType::Terminate => self.get_count_of_completed_details() < i64::MAX,
            _ => true,
        }
    }

    /// The random duration that executing `t` needs, if any.
    pub fn sample_needed(&self, t: &Transaction) -> (r: Option<SampleSource>)
        ensures
            r == sample_needed_spec(self@, *t),
    {
        match t.current_block {
            BlockType::Generate => Some(SampleSource::Arrival),
            BlockType::AdvanceRobotToMachiningCenter => if self.robot_is_busy() {
                None
            } else {
                Some(SampleSource::Robot)
            },
            BlockType::AdvanceMachiningCenter => Some(SampleSource::Machine),
            BlockType::AdvanceRobotToConveyor => if self.robot_is_busy() {
                None
            } else {
                Some(SampleSource::Robot)
            },
            _ => None,
        }
    }

    /// Executes the block in which `t` stands. `sample` is the duration drawn
    /// from the source that `sample_needed` named; blocks that draw none ignore it.
    pub fn execute_block(&mut self, t: Transaction, sample: i64)
        requires
            step_defined(old(self)@, t, sample as int),
        ensures
            final(self)@ == block_step(old(self)@, t, sample as int),
            t.current_block == BlockType::EnterMachiningCenter && old(self)@.machines_busy_count
                < old(self)@.resource ==> final(self)@.machines_busy_count
                == old(self)@.machines_busy_count + 1,
            t.current_block == BlockType::AdvanceMachiningCenter || ((t.current_block
                == BlockType::AdvanceRobotToMachiningCenter || t.current_block
                == BlockType::AdvanceRobotToConveyor) && !old(self)@.robot_busy()) ==> {
                &&& final(self)@.fec == old(self)@.fec.push(final(self)@.fec.last())
                &&& final(self)@.fec.last().time == t.time + sample
            },
    {
        proof {
            crate::laws::law_centres_taken_one_at_a_time(self@, t, sample as int);
            crate::laws::law_durations_add_to_the_piece_time(self@, t, sample as int);
        }
        let mut t = t;
        match t.get_current_block() {
            BlockType::Initial => {
                t.set_current_block(BlockType::Generate);
                t.set_next_block(BlockType::SeizeRobotToMachiningCenter);
                return ;
            },
            BlockType::Generate => {
                let id = t.get_id() + 1;
                let time = sample + self.get_current_time();
                let new_transaction = Transaction::new(id, time);
                self.fec.add(new_transaction);
                t.set_current_block(BlockType::SeizeRobotToMachiningCenter);
                t.set_next_block(BlockType::AdvanceRobotToMachiningCenter);
                self.cec.add_to_front(t);
                return ;
            },
            BlockType::SeizeRobotToMachiningCenter => {
                t.set_current_block(BlockType::AdvanceRobotToMachiningCenter);
                t.set_next_block(BlockType::ReleaseRobotToMachiningCenter);
                self.add_to_robot_queue(t);
                self.cec.add_to_front(t);
                return ;
            },
            BlockType::AdvanceRobotToMachiningCenter => {
                if self.robot_is_busy() {
                    self.fec.add(t);
                    return ;
                }
                t.set_time(t.get_time() + sample);
                t.set_current_block(BlockType::ReleaseRobotToMachiningCenter);
                t.set_next_block(BlockType::EnterMachiningCenter);
                self.fec.add(t);
                return ;
            },
            BlockType::ReleaseRobotToMachiningCenter => {
                self.delete_from_robot_queue();
                t.set_current_block(BlockType::EnterMachiningCenter);
                t.set_next_block(BlockType::AdvanceMachiningCenter);
                self.cec.add_to_back(t);
                proof {
                    let v = self@;
                    assert(v.queue_area_increment() == 0) by (nonlinear_arith)
                        requires
                            v.clock == v.last_queue_change_time,
                            v.queue_area_increment() == (v.clock - v.last_queue_change_time)
                                * v.machines_queue.len(),
                    ;
                }
                self.add_to_machines_queue(t);
                return ;
            },
            BlockType::EnterMachiningCenter => {
                if self.get_machines_busy_count() == self.get_resource() {
                    return ;
                }
                let new_machines_busy_count = self.get_machines_busy_count() + 1;
                self.set_machines_busy_count(new_machines_busy_count);
                t.set_current_block(BlockType::AdvanceMachiningCenter);
                t.set_next_block(BlockType::LeaveMachiningCenter);
                self.cec.add_to_front(t);
                return ;
            },
            BlockType::AdvanceMachiningCenter => {
                t.set_current_block(BlockType::LeaveMachiningCenter);
                t.set_next_block(BlockType::SeizeRobotToConveyor);
                t.set_time(t.get_time() + sample);
                self.fec.add(t);
                return ;
            },
            BlockType::LeaveMachiningCenter => {
                if self.robot_is_busy() {
                    self.fec.add(t);
                    return ;
                }
                let new_machines_busy_count = self.get_machines_busy_count() - 1;
                self.set_machines_busy_count(new_machines_busy_count);
                self.delete_from_machines_queue();
                t.set_current_block(BlockType::SeizeRobotToConveyor);
                t.set_next_block(BlockType::AdvanceRobotToConveyor);
                self.cec.add_to_front(t);
                return ;
            },
            BlockType::SeizeRobotToConveyor => {
                t.set_current_block(BlockType::AdvanceRobotToConveyor);
                t.set_next_block(BlockType::ReleaseRobotToConveyor);
                self.add_to_robot_queue(t);
                self.cec.add_to_front(t);
                return ;
            },
            BlockType::AdvanceRobotToConveyor => {
                if self.robot_is_busy() {
                    self.fec.add(t);
                    return ;
                }
                t.set_time(t.get_time() + sample);
                t.set_current_block(BlockType::ReleaseRobotToConveyor);
                t.set_next_block(BlockType::Terminate);
                self.fec.add(t);
                return ;
            },
            BlockType::ReleaseRobotToConveyor => {
                if self.get_current_time() < t.get_time() {
                    return ;
                }
                self.delete_from_robot_queue();
                t.set_current_block(BlockType::Terminate);
                t.set_next_block(BlockType::Terminate);
                self.cec.add_to_back(t);
                return ;
            },
            BlockType::Terminate => {
                self.inc_count_of_completed_details();
                self.cec.pop_front();
            },
        }
    }
}

} // verus!
