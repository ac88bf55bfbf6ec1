use vstd::prelude::*;

use crate::chains::{earliest, lemma_earliest};
use crate::models::{BlockType, Transaction};
use crate::print::drain_order;
use crate::state::simulate::{
    block_step, iteration_start_spec, next_due_spec, sample_needed_spec, IterationStart,
    SIMULATION_HORIZON,
};
use crate::state::{fits_i64, StateView};

verus! {

broadcast use vstd::seq_lib::group_to_multiset_ensures;

/// `u` is `t` moved on by one block along the route: same transaction
/// number, standing in the block after `t`'s, with the block after that next.
pub open spec fn moved_on(t: Transaction, u: Transaction) -> bool {
    &&& u.id == t.id
    &&& u.current_block == t.current_block.successor()
    &&& u.next_block == u.current_block.successor()
}

/// `u` is in `after` but not in `before`.
pub open spec fn is_new(before: Seq<Transaction>, after: Seq<Transaction>, u: Transaction) -> bool {
    after.contains(u) && !before.contains(u)
}

/// Executing a block moves the transaction along its route: whatever it puts
/// newly in the current event chain, the robot queue or the machining queue
/// is the transaction moved on to the next block; whatever it puts newly in
/// the future event chain is the transaction unchanged (waiting for the
/// robot), the transaction moved on, or a newly generated transaction that
/// has not entered the route yet and carries the next number.
pub proof fn law_step_follows_route(s: StateView, t: Transaction, sample: int)
    requires
        t.current_block == BlockType::Generate ==> t.id < i64::MAX,
    ensures
        forall|u: Transaction| #[trigger]
            is_new(s.cec, block_step(s, t, sample).cec, u) ==> moved_on(t, u),
        forall|u: Transaction| #[trigger]
            is_new(s.robot_queue, block_step(s, t, sample).robot_queue, u) ==> moved_on(t, u),
        forall|u: Transaction| #[trigger]
            is_new(s.machines_queue, block_step(s, t, sample).machines_queue, u) ==> moved_on(
                t,
                u,
            ),
        forall|u: Transaction| #[trigger]
            is_new(s.fec, block_step(s, t, sample).fec, u) ==> {
                ||| u == t
                ||| moved_on(t, u)
                ||| (t.current_block == BlockType::Generate && u.current_block
                    == BlockType::Initial && u.id == t.id + 1)
            },
{
    let s2 = block_step(s, t, sample);
    assert forall|u: Transaction| #[trigger] is_new(s.cec, s2.cec, u) implies moved_on(t, u) by {
        let k = choose|k: int| 0 <= k < s2.cec.len() && s2.cec[k] == u;
        if 0 < k && k <= s.cec.len() && s2.cec =~= seq![s2.cec[0]] + s.cec {
            assert(s.cec[k - 1] == u);
        }
        if k < s.cec.len() && s2.cec =~= s.cec.push(s2.cec.last()) {
            assert(s.cec[k] == u);
        }
        if s.cec.len() > 0 && s2.cec =~= s.cec.drop_first() {
            assert(s.cec[k + 1] == u);
        }
    }
    assert forall|u: Transaction| #[trigger]
        is_new(s.robot_queue, s2.robot_queue, u) implies moved_on(t, u) by {
        let k = choose|k: int| 0 <= k < s2.robot_queue.len() && s2.robot_queue[k] == u;
        if k < s.robot_queue.len() && s2.robot_queue =~= s.robot_queue.push(
            s2.robot_queue.last(),
        ) {
            assert(s.robot_queue[k] == u);
        }
        if s.robot_queue.len() > 0 && s2.robot_queue =~= s.robot_queue.drop_first() {
            assert(s.robot_queue[k + 1] == u);
        }
    }
    assert forall|u: Transaction| #[trigger]
        is_new(s.machines_queue, s2.machines_queue, u) implies moved_on(t, u) by {
        let k = choose|k: int| 0 <= k < s2.machines_queue.len() && s2.machines_queue[k] == u;
        if k < s.machines_queue.len() && s2.machines_queue =~= s.machines_queue.push(
            s2.machines_queue.last(),
        ) {
            assert(s.machines_queue[k] == u);
        }
        if s.machines_queue.len() > 0 && s2.machines_queue =~= s.machines_queue.drop_first() {
            assert(s.machines_queue[k + 1] == u);
        }
    }
    assert forall|u: Transaction| #[trigger] is_new(s.fec, s2.fec, u) implies {
        ||| u == t
        ||| moved_on(t, u)
        ||| (t.current_block == BlockType::Generate && u.current_block == BlockType::Initial
            && u.id == t.id + 1)
    } by {
        let k = choose|k: int| 0 <= k < s2.fec.len() && s2.fec[k] == u;
        if k < s.fec.len() && s2.fec =~= s.fec.push(s2.fec.last()) {
            assert(s.fec[k] == u);
        }
    }
}

/// No step occupies more machining centres than there are: executing a block
/// keeps the number of centres and, when at most all of them were busy (and
/// a piece leaving a centre holds one), keeps it so; no block moves the
/// clock; the other steps of an iteration leave the count alone.
pub proof fn law_capacity_respected(s: StateView, t: Transaction, sample: int)
    requires
        s.machines_busy_count <= s.resource,
        t.current_block == BlockType::LeaveMachiningCenter && !s.robot_busy()
            ==> s.machines_busy_count >= 1,
    ensures
        block_step(s, t, sample).resource == s.resource,
        block_step(s, t, sample).clock == s.clock,
        block_step(s, t, sample).machines_busy_count <= s.resource,
        iteration_start_spec(s).1.machines_busy_count == s.machines_busy_count,
        next_due_spec(s).1.machines_busy_count == s.machines_busy_count,
{
}

/// The future event chain hands out a transaction of the smallest time, and
/// nothing is lost: what it held is what it hands out plus what it keeps.
pub proof fn law_fec_pop_is_earliest(s: Seq<Transaction>)
    requires
        s.len() > 0,
    ensures
        forall|j: int| 0 <= j < s.len() ==> s[earliest(s)].time <= #[trigger] s[j].time,
        s.remove(earliest(s)).to_multiset().insert(s[earliest(s)]) == s.to_multiset(),
{
    lemma_earliest(s);
    let k = earliest(s);
    assert(s.to_multiset().count(s[k]) > 0);
    assert(s.remove(k).to_multiset().insert(s[k]) =~= s.to_multiset());
}

/// A transaction added to the future event chain earlier than everything in
/// it is the one the chain hands out next, and the chain then holds what it
/// held before.
pub proof fn law_fec_add_then_pop(s: Seq<Transaction>, t: Transaction)
    requires
        forall|j: int| 0 <= j < s.len() ==> t.time < #[trigger] s[j].time,
    ensures
        s.push(t)[earliest(s.push(t))] == t,
        s.push(t).remove(earliest(s.push(t))) == s,
{
    let p = s.push(t);
    lemma_earliest(p);
    let k = earliest(p);
    if k < s.len() {
        assert(p[k] == s[k]);
        assert(p[s.len() as int] == t);
    }
    assert(k == s.len());
    assert(p.remove(k) =~= s);
}

/// Emptying the future event chain hands its transactions out in time order,
/// each exactly as often as the chain held it.
pub proof fn law_drain_order_sorted(s: Seq<Transaction>)
    ensures
        forall|i: int, j: int|
            0 <= i < j < drain_order(s).len() ==> #[trigger] drain_order(s)[i].time
                <= #[trigger] drain_order(s)[j].time,
        drain_order(s).to_multiset() == s.to_multiset(),
    decreases s.len(),
{
    if s.len() > 0 {
        lemma_earliest(s);
        let k = earliest(s);
        let rest = s.remove(k);
        law_drain_order_sorted(rest);
        let d = drain_order(s);
        let dr = drain_order(rest);
        assert(d == seq![s[k]] + dr);
        vstd::seq_lib::lemma_multiset_commutative(seq![s[k]], dr);
        assert(seq![s[k]].to_multiset() =~= vstd::multiset::Multiset::empty().insert(s[k])) by {
            assert(seq![s[k]] =~= Seq::<Transaction>::empty().push(s[k]));
        }
        assert(d.to_multiset() =~= s.to_multiset());
        assert forall|i: int, j: int| 0 <= i < j < d.len() implies #[trigger] d[i].time
            <= #[trigger] d[j].time by {
            if i == 0 {
                let x = dr[j - 1];
                assert(dr.to_multiset().count(x) > 0);
                assert(rest.contains(x));
                let m = choose|m: int| 0 <= m < rest.len() && rest[m] == x;
                if m < k {
                    assert(s[m] == x);
                } else {
                    assert(s[m + 1] == x);
                }
            } else {
                assert(d[i] == dr[i - 1]);
                assert(d[j] == dr[j - 1]);
            }
        }
    } else {
        assert(drain_order(s) =~= s);
    }
}

/// The future event chain hands out only due transactions: one is handed out
/// only when its time has come, and when none is, every transaction left in
/// the chain lies in the future. Either way the chain loses nothing but what
/// it hands out.
pub proof fn law_next_due(s: StateView)
    ensures
        next_due_spec(s).0 matches Some(t) ==> {
            &&& t.time <= s.clock
            &&& next_due_spec(s).1.fec.to_multiset().insert(t) == s.fec.to_multiset()
        },
        next_due_spec(s).0 is None ==> {
            &&& forall|j: int|
                0 <= j < next_due_spec(s).1.fec.len() ==> #[trigger] next_due_spec(
                    s,
                ).1.fec[j].time > s.clock
            &&& next_due_spec(s).1.fec.to_multiset() == s.fec.to_multiset()
        },
        next_due_spec(s).1.clock == s.clock,
        next_due_spec(s).1.cec == s.cec,
{
    if s.fec.len() > 0 {
        law_fec_pop_is_earliest(s.fec);
        lemma_earliest(s.fec);
        let k = earliest(s.fec);
        let t = s.fec[k];
        let r = s.fec.remove(k);
        if t.time > s.clock {
            assert forall|j: int| 0 <= j < r.push(t).len() implies #[trigger] r.push(t)[j].time
                > s.clock by {
                if j < r.len() {
                    if j < k {
                        assert(r[j] == s.fec[j]);
                    } else {
                        assert(r[j] == s.fec[j + 1]);
                    }
                }
            }
        }
    }
}

/// With no future event lying before the clock, starting an iteration never
/// sets the clock back; when it moves the clock, it moves it to the earliest
/// future event, so that event is then due and none other is overtaken.
pub proof fn law_clock_never_goes_back(s: StateView)
    requires
        forall|j: int| 0 <= j < s.fec.len() ==> #[trigger] s.fec[j].time >= s.clock,
    ensures
        iteration_start_spec(s).1.clock >= s.clock,
        forall|j: int|
            0 <= j < s.fec.len() ==> #[trigger] s.fec[j].time >= iteration_start_spec(s).1.clock,
        iteration_start_spec(s).0 == IterationStart::Proceed ==> s.clock < SIMULATION_HORIZON,
{
    if s.fec.len() > 0 {
        lemma_earliest(s.fec);
    }
}

/// The current event chain gives back at its front what was last put there,
/// and keeps what was put at its back behind everything already waiting.
pub proof fn law_cec_front_and_back(q: Seq<Transaction>, t: Transaction)
    ensures
        (seq![t] + q)[0] == t,
        (seq![t] + q).drop_first() == q,
        q.len() > 0 ==> q.push(t)[0] == q[0] && q.push(t).drop_first() == q.drop_first().push(t),
        q.len() == 0 ==> q.push(t)[0] == t && q.push(t).drop_first() == q,
{
    assert((seq![t] + q).drop_first() =~= q);
    if q.len() > 0 {
        assert(q.push(t).drop_first() =~= q.drop_first().push(t));
    } else {
        assert(q.push(t).drop_first() =~= q);
    }
}

/// A block that draws no random duration does not depend on the value passed
/// for one.
pub proof fn law_sample_ignored_when_not_needed(s: StateView, t: Transaction, x: int, y: int)
    requires
        sample_needed_spec(s, t) is None,
    ensures
        block_step(s, t, x) == block_step(s, t, y),
{
}

/// Bringing the queue-length integral up to date twice at the same moment
/// adds nothing the second time.
pub proof fn law_queue_stats_idempotent(s: StateView)
    ensures
        s.with_queue_stats().with_queue_stats() == s.with_queue_stats(),
{
    let s1 = s.with_queue_stats();
    assert(s1.queue_area_increment() == 0) by (nonlinear_arith)
        requires
            s1.clock == s1.last_queue_change_time,
            s1.queue_area_increment() == (s1.clock - s1.last_queue_change_time)
                * s1.machines_queue.len(),
    ;
}

/// Starting an iteration changes nothing but the clock. It proceeds exactly
/// when the future event chain has events, not both chains are empty and the
/// horizon is not reached. When it proceeds with the current event chain
/// empty, the new clock is the smallest time in the future event chain: some
/// event falls at it and none lies before it. With work in the current chain
/// the clock stays.
pub proof fn law_iteration_clock_is_earliest_event(s: StateView)
    ensures
        iteration_start_spec(s).1 == (StateView { clock: iteration_start_spec(s).1.clock, ..s }),
        (iteration_start_spec(s).0 == IterationStart::Proceed) <==> (s.fec.len() > 0 && s.clock
            < SIMULATION_HORIZON),
        iteration_start_spec(s).0 == IterationStart::Proceed && s.cec.len() == 0 ==> {
            &&& exists|j: int|
                0 <= j < s.fec.len() && #[trigger] s.fec[j].time == iteration_start_spec(s).1.clock
            &&& forall|j: int|
                0 <= j < s.fec.len() ==> iteration_start_spec(s).1.clock <= #[trigger] s.fec[j].time
        },
        iteration_start_spec(s).0 == IterationStart::Proceed && s.cec.len() > 0
            ==> iteration_start_spec(s).1.clock == s.clock,
        iteration_start_spec(s).0 != IterationStart::Proceed ==> iteration_start_spec(s).1 == s,
{
    if s.fec.len() > 0 {
        lemma_earliest(s.fec);
        let k = earliest(s.fec);
        assert(0 <= k < s.fec.len() && s.fec[k].time == s.fec[k].time as int);
    }
}

/// The transaction handed out as due is an earliest one: it was in the
/// chain, its time has come, and no transaction, neither one left behind nor
/// one in the chain before, has a smaller time. When none is handed out, no
/// transaction of the chain is due. Only the future event chain changes.
pub proof fn law_due_transaction_is_earliest(s: StateView)
    ensures
        next_due_spec(s).0 matches Some(t) ==> {
            &&& s.fec.contains(t)
            &&& t.time <= s.clock
            &&& forall|j: int| 0 <= j < s.fec.len() ==> t.time <= #[trigger] s.fec[j].time
            &&& forall|j: int|
                0 <= j < next_due_spec(s).1.fec.len() ==> t.time <= #[trigger] next_due_spec(
                    s,
                ).1.fec[j].time
            &&& next_due_spec(s).1.fec.len() + 1 == s.fec.len()
        },
        next_due_spec(s).0 is None ==> {
            &&& forall|j: int| 0 <= j < s.fec.len() ==> #[trigger] s.fec[j].time > s.clock
            &&& next_due_spec(s).1.fec.len() == s.fec.len()
        },
        next_due_spec(s).1 == (StateView { fec: next_due_spec(s).1.fec, ..s }),
{
    if s.fec.len() > 0 {
        lemma_earliest(s.fec);
        let k = earliest(s.fec);
        let t = s.fec[k];
        let r = s.fec.remove(k);
        assert forall|j: int| 0 <= j < r.len() implies t.time <= #[trigger] r[j].time by {
            if j < k {
                assert(r[j] == s.fec[j]);
            } else {
                assert(r[j] == s.fec[j + 1]);
            }
        }
        if t.time <= s.clock {
            assert(s.fec.contains(t));
        }
    }
}

/// Machining centres are taken and freed one at a time: entering with a
/// centre free takes exactly one more, entering with all busy takes none;
/// leaving with the robot free frees exactly one, leaving while the robot is
/// busy frees none; no other block changes how many are busy.
pub proof fn law_centres_taken_one_at_a_time(s: StateView, t: Transaction, sample: int)
    ensures
        t.current_block == BlockType::EnterMachiningCenter && s.machines_busy_count < s.resource
            ==> block_step(s, t, sample).machines_busy_count == s.machines_busy_count + 1,
        t.current_block == BlockType::EnterMachiningCenter && s.machines_busy_count == s.resource
            ==> block_step(s, t, sample).machines_busy_count == s.machines_busy_count,
        t.current_block == BlockType::LeaveMachiningCenter && !s.robot_busy()
            && s.machines_busy_count >= 1 ==> block_step(s, t, sample).machines_busy_count
            == s.machines_busy_count - 1,
        t.current_block == BlockType::LeaveMachiningCenter && s.robot_busy() ==> block_step(
            s,
            t,
            sample,
        ).machines_busy_count == s.machines_busy_count,
        t.current_block != BlockType::EnterMachiningCenter && t.current_block
            != BlockType::LeaveMachiningCenter ==> block_step(s, t, sample).machines_busy_count
            == s.machines_busy_count,
{
}

/// A block that draws a duration schedules the piece that far after its own
/// time: machining, and the robot's trips while the robot is free, add to the
/// future event chain (keeping all it held) one transaction, the same piece
/// moved on to the next block, due at its time plus the drawn duration. While
/// the robot is busy the piece is put back unchanged. Generating schedules the
/// next arrival, numbered one higher, at the clock plus the drawn duration.
pub proof fn law_durations_add_to_the_piece_time(s: StateView, t: Transaction, sample: int)
    ensures
        ({
            let n = block_step(s, t, sample).fec;
            (t.current_block == BlockType::AdvanceMachiningCenter || ((t.current_block
                == BlockType::AdvanceRobotToMachiningCenter || t.current_block
                == BlockType::AdvanceRobotToConveyor) && !s.robot_busy())) && fits_i64(
                t.time + sample,
            ) ==> {
                &&& n.len() == s.fec.len() + 1
                &&& n.drop_last() == s.fec
                &&& n.last().time == t.time + sample
                &&& n.last().id == t.id
                &&& n.last().current_block == t.current_block.successor()
                &&& n.last().next_block == t.current_block.successor().successor()
            }
        }),
        (t.current_block == BlockType::AdvanceRobotToMachiningCenter || t.current_block
            == BlockType::AdvanceRobotToConveyor) && s.robot_busy() ==> block_step(
            s,
            t,
            sample,
        ).fec == s.fec.push(t),
        ({
            let n = block_step(s, t, sample).fec;
            t.current_block == BlockType::Generate && fits_i64(s.clock + sample) && t.id
                < i64::MAX ==> {
                &&& n.len() == s.fec.len() + 1
                &&& n.drop_last() == s.fec
                &&& n.last().time == s.clock + sample
                &&& n.last().id == t.id + 1
                &&& n.last().current_block == BlockType::Initial
            }
        }),
{
    let n = block_step(s, t, sample).fec;
    if n.len() == s.fec.len() + 1 {
        assert(n.drop_last() =~= s.fec);
    }
}

/// Where a block puts the piece it moves on. Generating, seizing the robot,
/// entering a centre and leaving one (robot free) put it at the front of the
/// current event chain; releasing the robot puts it at the back. Seizing the
/// robot also queues it at the back of the robot queue, releasing the robot
/// at the machining centres queues it at the back of the machining queue and
/// removes the front of the robot queue. Each time the piece keeps its number
/// and its time and moves to the next block of the route.
pub proof fn law_pieces_placed_in_their_chains(s: StateView, t: Transaction, sample: int)
    ensures
        ({
            let n = block_step(s, t, sample);
            (t.current_block == BlockType::Generate || t.current_block
                == BlockType::SeizeRobotToMachiningCenter || t.current_block
                == BlockType::SeizeRobotToConveyor || (t.current_block
                == BlockType::EnterMachiningCenter && s.machines_busy_count != s.resource) || (
            t.current_block == BlockType::LeaveMachiningCenter && !s.robot_busy())) ==> {
                &&& n.cec.len() == s.cec.len() + 1
                &&& n.cec.drop_first() == s.cec
                &&& moved_on(t, n.cec[0])
                &&& n.cec[0].time == t.time
            }
        }),
        ({
            let n = block_step(s, t, sample);
            (t.current_block == BlockType::ReleaseRobotToMachiningCenter || (t.current_block
                == BlockType::ReleaseRobotToConveyor && s.clock >= t.time)) ==> {
                &&& n.cec.len() == s.cec.len() + 1
                &&& n.cec.drop_last() == s.cec
                &&& moved_on(t, n.cec.last())
                &&& n.cec.last().time == t.time
                &&& (s.robot_queue.len() > 0 ==> n.robot_queue == s.robot_queue.drop_first())
            }
        }),
        ({
            let n = block_step(s, t, sample);
            (t.current_block == BlockType::SeizeRobotToMachiningCenter || t.current_block
                == BlockType::SeizeRobotToConveyor) ==> n.robot_queue == s.robot_queue.push(
                n.cec[0],
            )
        }),
        ({
            let n = block_step(s, t, sample);
            t.current_block == BlockType::ReleaseRobotToMachiningCenter ==> n.machines_queue
                == s.machines_queue.push(n.cec.last())
        }),
        block_step(s, t, sample).clock == s.clock,
        block_step(s, t, sample).resource == s.resource,
{
    let n = block_step(s, t, sample);
    if n.cec.len() == s.cec.len() + 1 {
        assert(n.cec.drop_first() =~= s.cec || n.cec.drop_last() =~= s.cec);
    }
    assert((seq![n.cec[0]] + s.cec).drop_first() =~= s.cec);
    assert(s.cec.push(n.cec.last()).drop_last() =~= s.cec);
}

/// A piece that reaches the end of the route is counted once, and the front of
/// the current event chain is removed; a piece that tries to leave the robot
/// at the conveyor before its time changes nothing; a piece in the initial
/// block changes nothing.
pub proof fn law_finishing_and_early_release(s: StateView, t: Transaction, sample: int)
    ensures
        t.current_block == BlockType::Terminate ==> {
            &&& block_step(s, t, sample).completed == s.completed + 1
            &&& (s.cec.len() > 0 ==> block_step(s, t, sample).cec == s.cec.drop_first())
            &&& block_step(s, t, sample).fec == s.fec
        },
        t.current_block != BlockType::Terminate ==> block_step(s, t, sample).completed
            == s.completed,
        t.current_block == BlockType::ReleaseRobotToConveyor && s.clock < t.time ==> block_step(
            s,
            t,
            sample,
        ) == s,
        t.current_block == BlockType::Initial ==> block_step(s, t, sample) == s,
{
}

/// Releasing the robot adds to the queue-length integral the machining
/// queue's length times the time since the integral was last brought up to
/// date, and marks it up to date at the clock.
pub proof fn law_release_integrates_queue_length(s: StateView, t: Transaction, sample: int)
    ensures
        t.current_block == BlockType::ReleaseRobotToMachiningCenter || (t.current_block
            == BlockType::ReleaseRobotToConveyor && s.clock >= t.time) ==> {
            &&& block_step(s, t, sample).total_queue_length_time == s.total_queue_length_time + (
            s.clock - s.last_queue_change_time) * s.machines_queue.len()
            &&& block_step(s, t, sample).last_queue_change_time == s.clock
        },
        !(t.current_block == BlockType::ReleaseRobotToMachiningCenter || t.current_block
            == BlockType::ReleaseRobotToConveyor) ==> {
            &&& block_step(s, t, sample).total_queue_length_time == s.total_queue_length_time
            &&& block_step(s, t, sample).last_queue_change_time == s.last_queue_change_time
        },
{
    let s1 = s.with_queue_stats();
    assert(s1.queue_area_increment() == 0) by (nonlinear_arith)
        requires
            s1.clock == s1.last_queue_change_time,
            s1.queue_area_increment() == (s1.clock - s1.last_queue_change_time)
                * s1.machines_queue.len(),
    ;
}

} // verus!
