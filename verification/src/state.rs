use std::collections::VecDeque;
use vstd::prelude::*;

use crate::chains::{CEC, FEC};
use crate::models::Transaction;

pub mod simulate;

verus! {

/// The whole state of the model, as mathematical values.
pub struct StateView {
    /// The simulation clock, in ticks.
    pub clock: int,
    /// How many machining centres there are.
    pub resource: nat,
    /// Transactions queued for a machining centre, front first.
    pub machines_queue: Seq<Transaction>,
    /// How many machining centres are occupied.
    pub machines_busy_count: nat,
    pub fec: Seq<Transaction>,
    pub cec: Seq<Transaction>,
    /// The robot is busy while the clock is below this moment.
    pub robot_busy_until: int,
    /// Transactions queued for the robot, front first.
    pub robot_queue: Seq<Transaction>,
    /// How many work pieces have been completed.
    pub completed: int,
    pub total_robot_busy_time: int,
    pub total_machines_busy_time: int,
    pub total_robot_wait_time: int,
    pub total_robot_wait_count: nat,
    /// The integral over time of the machining queue's length.
    pub total_queue_length_time: int,
    /// The moment at which that integral was last brought up to date.
    pub last_queue_change_time: int,
}

pub open spec fn fits_i128(x: int) -> bool {
    i128::MIN <= x <= i128::MAX
}

pub open spec fn fits_i64(x: int) -> bool {
    i64::MIN <= x <= i64::MAX
}

impl StateView {
    /// The state of a fresh model with `resource` machining centres.
    pub open spec fn initial(resource: nat) -> StateView {
        StateView {
            clock: 0,
            resource,
            machines_queue: Seq::empty(),
            machines_busy_count: 0,
            fec: Seq::empty(),
            cec: Seq::empty(),
            robot_busy_until: 0,
            robot_queue: Seq::empty(),
            completed: 0,
            total_robot_busy_time: 0,
            total_machines_busy_time: 0,
            total_robot_wait_time: 0,
            total_robot_wait_count: 0,
            total_queue_length_time: 0,
            last_queue_change_time: 0,
        }
    }

    pub open spec fn robot_busy(self) -> bool {
        self.clock < self.robot_busy_until
    }

    /// What the machining queue has contributed to the length integral since
    /// it was last brought up to date.
    pub open spec fn queue_area_increment(self) -> int {
        (self.clock - self.last_queue_change_time) * self.machines_queue.len()
    }

    /// The length integral can be brought up to date without overflow.
    pub open spec fn queue_stats_fit(self) -> bool {
        &&& fits_i128(self.queue_area_increment())
        &&& fits_i128(self.total_queue_length_time + self.queue_area_increment())
    }

    /// The state with the length integral brought up to the clock.
    pub open spec fn with_queue_stats(self) -> StateView {
        StateView {
            total_queue_length_time: self.total_queue_length_time + self.queue_area_increment(),
            last_queue_change_time: self.clock,
            ..self
        }
    }
}

/// The state of the model.
pub struct SystemState {
    /// The simulation clock, in ticks.
    pub current_time: i64,
    pub resource: usize,
    pub machines_queue: VecDeque<Transaction>,
    pub machines_busy_count: usize,
    pub fec: FEC,
    pub cec: CEC,
    pub robot_busy_until: i64,
    pub robot_queue: VecDeque<Transaction>,
    /// How many work pieces have been completed.
    pub count_of_completed_details: i64,
    pub total_robot_busy_time: i64,
    pub total_machines_busy_time: i64,
    pub total_robot_wait_time: i64,
    pub total_robot_wait_count: u64,
    pub total_queue_length_time: i128,
    pub last_queue_change_time: i64,
}

impl View for SystemState {
    type V = StateView;

    open spec fn view(&self) -> StateView {
        StateView {
            clock: self.current_time as int,
            resource: self.resource as nat,
            machines_queue: self.machines_queue@,
            machines_busy_count: self.machines_busy_count as nat,
            fec: self.fec@,
            cec: self.cec@,
            robot_busy_until: self.robot_busy_until as int,
            robot_queue: self.robot_queue@,
            completed: self.count_of_completed_details as int,
            total_robot_busy_time: self.total_robot_busy_time as int,
            total_machines_busy_time: self.total_machines_busy_time as int,
            total_robot_wait_time: self.total_robot_wait_time as int,
            total_robot_wait_count: self.total_robot_wait_count as nat,
            total_queue_length_time: self.total_queue_length_time as int,
            last_queue_change_time: self.last_queue_change_time as int,
        }
    }
}

impl SystemState {
    /// A fresh model with `resource` machining centres, the clock at 0.
    pub fn new(resource: usize) -> (s: SystemState)
        ensures
            s@ == StateView::initial(resource as nat),
    {
        SystemState {
            current_time: 0,
            resource,
            machines_busy_count: 0,
            machines_queue: VecDeque::new(),
            fec: FEC::new(),
            cec: CEC::new(),
            robot_busy_until: 0,
            robot_queue: VecDeque::new(),
            count_of_completed_details: 0,
            total_robot_busy_time: 0,
            total_machines_busy_time: 0,
            total_robot_wait_time: 0,
            total_robot_wait_count: 0,
            total_queue_length_time: 0,
            last_queue_change_time: 0,
        }
    }

    /// Puts `t` into the future event chain.
    pub fn schedule(&mut self, t: Transaction)
        ensures
            final(self)@ == (StateView { fec: old(self)@.fec.push(t), ..old(self)@ }),
    {
        self.fec.add(t);
    }

    pub fn robot_is_busy(&self) -> (r: bool)
        ensures
            r == self@.robot_busy(),
    {
        self.current_time < self.robot_busy_until
    }

    pub fn inc_count_of_completed_details(&mut self)
        requires
            old(self)@.completed < i64::MAX,
        ensures
            final(self)@ == (StateView { completed: old(self)@.completed + 1, ..old(self)@ }),
    {
        self.count_of_completed_details = self.count_of_completed_details + 1;
    }

    pub fn get_count_of_completed_details(&self) -> (r: i64)
        ensures
            r == self@.completed,
    {
        self.count_of_completed_details
    }

    pub fn set_robot_busy_until(&mut self, t: i64)
        ensures
            final(self)@ == (StateView { robot_busy_until: t as int, ..old(self)@ }),
    {
        self.robot_busy_until = t;
    }

    pub fn get_resource(&self) -> (r: usize)
        ensures
            r == self@.resource,
    {
        self.resource
    }

    pub fn get_machines_busy_count(&self) -> (r: usize)
        ensures
            r == self@.machines_busy_count,
    {
        self.machines_busy_count
    }

    pub fn add_to_robot_queue(&mut self, t: Transaction)
        ensures
            final(self)@ == (StateView { robot_queue: old(self)@.robot_queue.push(t), ..old(self)@ }),
    {
        self.robot_queue.push_back(t);
    }

    pub fn get_current_time(&self) -> (r: i64)
        ensures
            r == self@.clock,
    {
        self.current_time
    }

    pub fn set_current_time(&mut self, new_current_time: i64)
        ensures
            final(self)@ == (StateView { clock: new_current_time as int, ..old(self)@ }),
    {
        self.current_time = new_current_time;
    }

    /// Brings the queue-length integral up to date, then queues `t` for a
    /// machining centre.
    pub fn add_to_machines_queue(&mut self, t: Transaction)
        requires
            old(self)@.queue_stats_fit(),
        ensures
            final(self)@ == (StateView {
                machines_queue: old(self)@.with_queue_stats().machines_queue.push(t),
                ..old(self)@.with_queue_stats()
            }),
    {
        self.update_machines_queue_stats();
        self.machines_queue.push_back(t);
    }

    /// Brings the queue-length integral up to date, then removes the front
    /// of the robot queue.
    pub fn delete_from_robot_queue(&mut self)
        requires
            old(self)@.queue_stats_fit(),
        ensures
            final(self)@ == (StateView {
                robot_queue: if old(self)@.robot_queue.len() == 0 {
                    old(self)@.robot_queue
                } else {
                    old(self)@.robot_queue.drop_first()
                },
                ..old(self)@.with_queue_stats()
            }),
    {
        self.update_machines_queue_stats();
        self.robot_queue.pop_front();
    }

    pub fn set_machines_busy_count(&mut self, count: usize)
        ensures
            final(self)@ == (StateView { machines_busy_count: count as nat, ..old(self)@ }),
    {
        self.machines_busy_count = count;
    }

    /// Removes the front of the machining queue (the length integral is not
    /// brought up to date).
    pub fn delete_from_machines_queue(&mut self)
        ensures
            final(self)@ == (StateView {
                machines_queue: if old(self)@.machines_queue.len() == 0 {
                    old(self)@.machines_queue
                } else {
                    old(self)@.machines_queue.drop_first()
                },
                ..old(self)@
            }),
    {
        self.machines_queue.pop_front();
    }

    /// Whether the queue-length integral can be brought up to date without overflow.
    pub fn queue_stats_fit(&self) -> (r: bool)
        ensures
            r == self@.queue_stats_fit(),
    {
        let duration: i128 = self.current_time as i128 - self.last_queue_change_time as i128;
        let len: i128 = self.machines_queue.len() as i128;
        assert(duration * len == self@.queue_area_increment());
        match duration.checked_mul(len) {
            None => false,
            Some(increment) => self.total_queue_length_time.checked_add(increment).is_some(),
        }
    }

    /// Adds to the queue-length integral the queue's length times the time
    /// elapsed since the last update, and marks the integral up to date.
    pub fn update_machines_queue_stats(&mut self)
        requires
            old(self)@.queue_stats_fit(),
        ensures
            final(self)@ == old(self)@.with_queue_stats(),
    {
        let duration: i128 = self.current_time as i128 - self.last_queue_change_time as i128;
        let len: i128 = self.machines_queue.len() as i128;
        assert(duration * len == self@.queue_area_increment());
        self.total_queue_length_time = self.total_queue_length_time + duration * len;
        self.last_queue_change_time = self.current_time;
    }
}

} // verus!
