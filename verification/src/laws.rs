//! General laws of the scene, stated over the spec functions that the
//! reaction rules' contracts use, and proved for all inputs.

use vstd::prelude::*;

use crate::rational::{
    lemma_q_add_assoc, lemma_q_add_cancel, lemma_q_add_comm, lemma_q_lt_add_neg,
    lemma_q_lt_add_pos, q_add, q_eq, q_from_int, q_lt, q_wf, Qv,
};
use crate::scene::{
    frame_result, motion_dx, motion_dy, motion_step, position_after_motions,
    rotation_after_buttons, transform_views, MouseMotion, MouseWheel, Transform,
};

verus! {

/// Holding only the left button for one frame strictly increases the
/// rotation — by exactly 0.1 radians, as `rotation_after_buttons` states.
pub proof fn lemma_left_button_strictly_increases(rot: Qv)
    requires
        q_wf(rot),
    ensures
        q_lt(rot, rotation_after_buttons(rot, true, false)),
{
    lemma_q_lt_add_pos(rot, (1, 10));
}

/// Holding only the right button for one frame strictly decreases the
/// rotation — by exactly 0.1 radians.
pub proof fn lemma_right_button_strictly_decreases(rot: Qv)
    requires
        q_wf(rot),
    ensures
        q_lt(rotation_after_buttons(rot, false, true), rot),
{
    lemma_q_lt_add_neg(rot, (-1, 10));
}

/// Holding neither button leaves the rotation unchanged.
pub proof fn lemma_no_button_rotation_unchanged(rot: Qv)
    ensures
        rotation_after_buttons(rot, false, false) == rot,
{
}

/// Holding both buttons in the same frame yields no net change in the
/// rotation's value: the two steps cancel.
pub proof fn lemma_both_buttons_no_net_change(rot: Qv)
    requires
        q_wf(rot),
    ensures
        q_eq(rotation_after_buttons(rot, true, true), rot),
{
    lemma_q_add_cancel(rot, (1, 10));
}

/// The total position contribution of a sequence of motion events: the sum
/// of each event's own (dx / 20, -dy / 20) contribution.
pub open spec fn motion_total(es: Seq<MouseMotion>) -> (Qv, Qv)
    decreases es.len(),
{
    if es.len() == 0 {
        (q_from_int(0), q_from_int(0))
    } else {
        let rest = motion_total(es.drop_first());
        (q_add(motion_dx(es[0]), rest.0), q_add(motion_dy(es[0]), rest.1))
    }
}

/// Motion events accumulate: applying any sequence of motion events in
/// arrival order changes the position by exactly the sum of the events'
/// individual contributions. In particular, two events in one frame produce
/// position changes equal to the sum of their individual contributions.
pub proof fn lemma_motion_events_accumulate(p: (Qv, Qv), es: Seq<MouseMotion>)
    ensures
        position_after_motions(p, es) == (
            q_add(p.0, motion_total(es).0),
            q_add(p.1, motion_total(es).1),
        ),
    decreases es.len(),
{
    if es.len() == 0 {
        assert(p.0.0 * 1 == p.0.0);
        assert(p.1.0 * 1 == p.1.0);
        assert(p.0.1 * 1 == p.0.1);
        assert(p.1.1 * 1 == p.1.1);
        assert(0 * p.0.1 == 0);
        assert(0 * p.1.1 == 0);
        assert(q_add(p.0, q_from_int(0)).0 == p.0.0);
        assert(q_add(p.0, q_from_int(0)).1 == p.0.1);
        assert(q_add(p.1, q_from_int(0)).0 == p.1.0);
        assert(q_add(p.1, q_from_int(0)).1 == p.1.1);
        assert(q_add(p.0, q_from_int(0)) == p.0);
        assert(q_add(p.1, q_from_int(0)) == p.1);
    } else {
        let p1 = motion_step(p, es[0]);
        let rest = es.drop_first();
        lemma_motion_events_accumulate(p1, rest);
        lemma_q_add_assoc(p.0, motion_dx(es[0]), motion_total(rest).0);
        lemma_q_add_assoc(p.1, motion_dy(es[0]), motion_total(rest).1);
        assert(position_after_motions(p, es).0 == q_add(p.0, motion_total(es).0));
        assert(position_after_motions(p, es).1 == q_add(p.1, motion_total(es).1));
    }
}

/// The value of the final position does not depend on the order of two
/// motion events: [a, b] and [b, a] land on the same position. (Their
/// processing order is still fixed — arrival order — for reproducibility;
/// only the resulting value is order-independent, addition commuting.)
pub proof fn lemma_motion_order_independent(p: (Qv, Qv), a: MouseMotion, b: MouseMotion)
    ensures
        position_after_motions(p, seq![a, b]) == position_after_motions(p, seq![b, a]),
{
    reveal_with_fuel(position_after_motions, 3);
    assert(seq![a, b].drop_first() =~= seq![b]);
    assert(seq![b, a].drop_first() =~= seq![a]);
    assert(seq![b].drop_first() =~= Seq::<MouseMotion>::empty());
    assert(seq![a].drop_first() =~= Seq::<MouseMotion>::empty());
    let pa = motion_step(p, a);
    let pb = motion_step(p, b);
    let pab = motion_step(pa, b);
    let pba = motion_step(pb, a);
    assert(position_after_motions(p, seq![a, b]) == position_after_motions(pa, seq![b]));
    assert(position_after_motions(pa, seq![b]) == pab);
    assert(position_after_motions(p, seq![b, a]) == position_after_motions(pb, seq![a]));
    assert(position_after_motions(pb, seq![a]) == pba);
    let da = (motion_dx(a), motion_dy(a));
    let db = (motion_dx(b), motion_dy(b));
    lemma_q_add_assoc(p.0, da.0, db.0);
    lemma_q_add_assoc(p.1, da.1, db.1);
    lemma_q_add_assoc(p.0, db.0, da.0);
    lemma_q_add_assoc(p.1, db.1, da.1);
    lemma_q_add_comm(da.0, db.0);
    lemma_q_add_comm(da.1, db.1);
    assert(pab.0 == pba.0);
    assert(pab.1 == pba.1);
}

/// A frame with no buttons held and no queued events is a fixed point: it
/// leaves the transform exactly unchanged.
pub proof fn lemma_no_input_frame_is_fixed_point(t: Transform)
    ensures
        frame_result(
            t,
            false,
            false,
            Seq::<MouseMotion>::empty(),
            Seq::<MouseWheel>::empty(),
        ) == transform_views(t),
{
}

} // verus!
