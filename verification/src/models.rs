use vstd::prelude::*;

verus! {

/// The blocks of the route that a transaction travels, in route order.
#[derive(Clone, Copy, PartialEq, Eq, Debug, Structural)]
pub enum BlockType {
    Initial,
    Generate,
    SeizeRobotToMachiningCenter,
    AdvanceRobotToMachiningCenter,
    ReleaseRobotToMachiningCenter,
    EnterMachiningCenter,
    AdvanceMachiningCenter,
    LeaveMachiningCenter,
    SeizeRobotToConveyor,
    AdvanceRobotToConveyor,
    ReleaseRobotToConveyor,
    Terminate,
}

impl BlockType {
    /// The block's address: its position on the route, starting at 0.
    pub open spec fn address(self) -> int {
        match self {
            BlockType::Initial => 0,
            BlockType::Generate => 1,
            BlockType::SeizeRobotToMachiningCenter => 2,
            BlockType::AdvanceRobotToMachiningCenter => 3,
            BlockType::ReleaseRobotToMachiningCenter => 4,
            BlockType::EnterMachiningCenter => 5,
            BlockType::AdvanceMachiningCenter => 6,
            BlockType::LeaveMachiningCenter => 7,
            BlockType::SeizeRobotToConveyor => 8,
            BlockType::AdvanceRobotToConveyor => 9,
            BlockType::ReleaseRobotToConveyor => 10,
            BlockType::Terminate => 11,
        }
    }

    /// The block that follows this one on the route; the route ends in `Terminate`.
    pub open spec fn successor(self) -> BlockType {
        match self {
            BlockType::Initial => BlockType::Generate,
            BlockType::Generate => BlockType::SeizeRobotToMachiningCenter,
            BlockType::SeizeRobotToMachiningCenter => BlockType::AdvanceRobotToMachiningCenter,
            BlockType::AdvanceRobotToMachiningCenter => BlockType::ReleaseRobotToMachiningCenter,
            BlockType::ReleaseRobotToMachiningCenter => BlockType::EnterMachiningCenter,
            BlockType::EnterMachiningCenter => BlockType::AdvanceMachiningCenter,
            BlockType::AdvanceMachiningCenter => BlockType::LeaveMachiningCenter,
            BlockType::LeaveMachiningCenter => BlockType::SeizeRobotToConveyor,
            BlockType::SeizeRobotToConveyor => BlockType::AdvanceRobotToConveyor,
            BlockType::AdvanceRobotToConveyor => BlockType::ReleaseRobotToConveyor,
            BlockType::ReleaseRobotToConveyor => BlockType::Terminate,
            BlockType::Terminate => BlockType::Terminate,
        }
    }

    /// The block's address as a number.
    pub fn code(&self) -> (c: i32)
        ensures
            c == self.address(),
    {
        match self {
            BlockType::Initial => 0,
            BlockType::Generate => 1,
            BlockType::SeizeRobotToMachiningCenter => 2,
            BlockType::AdvanceRobotToMachiningCenter => 3,
            BlockType::ReleaseRobotToMachiningCenter => 4,
            BlockType::EnterMachiningCenter => 5,
            BlockType::AdvanceMachiningCenter => 6,
            BlockType::LeaveMachiningCenter => 7,
            BlockType::SeizeRobotToConveyor => 8,
            BlockType::AdvanceRobotToConveyor => 9,
            BlockType::ReleaseRobotToConveyor => 10,
            BlockType::Terminate => 11,
        }
    }
}

/// Every block but the last is followed by the block one address further on,
/// and the route never leaves `Terminate`.
pub proof fn lemma_route_successor(b: BlockType)
    ensures
        b != BlockType::Terminate ==> b.successor().address() == b.address() + 1,
        b == BlockType::Terminate ==> b.successor() == b,
        0 <= b.address() <= 11,
{
}

/// A transaction: one work piece travelling the route.
#[derive(Clone, Copy, PartialEq, Eq, Debug, Structural)]
pub struct Transaction {
    /// The transaction's number.
    pub id: i64,
    /// The time, in clock ticks, at which its next event falls due.
    pub time: i64,
    /// The block it currently stands in.
    pub current_block: BlockType,
    /// The block it will move to next.
    pub next_block: BlockType,
    /// When it started waiting for the robot.
    pub robot_wait_start: i64,
}

impl Transaction {
    /// A fresh transaction that has not yet entered the route.
    pub open spec fn fresh(id: i64, time: i64) -> Transaction {
        Transaction {
            id,
            time,
            current_block: BlockType::Initial,
            next_block: BlockType::Generate,
            robot_wait_start: 0,
        }
    }

    pub fn new(id: i64, time: i64) -> (t: Transaction)
        ensures
            t == Transaction::fresh(id, time),
    {
        Transaction {
            id,
            time,
            current_block: BlockType::Initial,
            next_block: BlockType::Generate,
            robot_wait_start: 0,
        }
    }

    pub fn get_id(&self) -> (r: i64)
        ensures
            r == self.id,
    {
        self.id
    }

    pub fn get_time(&self) -> (r: i64)
        ensures
            r == self.time,
    {
        self.time
    }

    pub fn get_current_block(&self) -> (r: BlockType)
        ensures
            r == self.current_block,
    {
        self.current_block
    }

    pub fn set_time(&mut self, new_time: i64)
        ensures
            *final(self) == (Transaction { time: new_time, ..*old(self) }),
    {
        self.time = new_time;
    }

    pub fn set_current_block(&mut self, block: BlockType)
        ensures
            *final(self) == (Transaction { current_block: block, ..*old(self) }),
    {
        self.current_block = block;
    }

    pub fn set_next_block(&mut self, block: BlockType)
        ensures
            *final(self) == (Transaction { next_block: block, ..*old(self) }),
    {
        self.next_block = block;
    }
}

} // verus!
