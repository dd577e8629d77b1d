use crate::movement::{
    due_steps, lemma_due_monotone, lemma_rescale, lemma_scale_adds, lemma_unit_step_fits,
    spec_rescale, start_fits, step_num, MovableOnMap, MovementEvent, MovementState, SpriteState,
    Translation,
};
use vstd::prelude::*;

verus! {

/// Sum of a run of tick lengths.
pub open spec fn total_nanos(deltas: Seq<u64>) -> int
    decreases deltas.len(),
{
    if deltas.len() == 0 {
        0
    } else {
        deltas[0] + total_nanos(deltas.drop_first())
    }
}

/// Position, sprite, actor and substeps applied after one tick for each of
/// `deltas`, in order.
pub open spec fn run(mv: MovableOnMap, t: Translation, sprite: SpriteState, deltas: Seq<u64>) -> (
    Translation,
    SpriteState,
    MovableOnMap,
    nat,
)
    decreases deltas.len(),
{
    if deltas.len() == 0 {
        (t, sprite, mv, 0)
    } else {
        let first = mv.spec_advance(t, sprite, deltas[0]);
        let rest = run(first.2, first.0, first.1, deltas.drop_first());
        (rest.0, rest.1, rest.2, first.3 + rest.3)
    }
}

/// The actor that a trigger for `event` makes of an idle one.
pub open spec fn started(event: MovementEvent, tile_size: u32) -> MovableOnMap {
    MovableOnMap { movement_state: MovementState::Idle, movement: None }.spec_on_move(
        event,
        tile_size,
    )
}

proof fn lemma_total_nonneg(deltas: Seq<u64>)
    ensures
        total_nanos(deltas) >= 0,
    decreases deltas.len(),
{
    if deltas.len() > 0 {
        lemma_total_nonneg(deltas.drop_first());
    }
}

proof fn lemma_run_idle(mv: MovableOnMap, t: Translation, sprite: SpriteState, deltas: Seq<u64>)
    requires
        mv.movement is None,
    ensures
        run(mv, t, sprite, deltas) == (t, sprite, mv, 0nat),
    decreases deltas.len(),
{
    if deltas.len() > 0 {
        lemma_run_idle(mv, t, sprite, deltas.drop_first());
    }
}

/// One tick keeps the actor well formed and moves it without wrapping.
proof fn lemma_advance_wf(mv: MovableOnMap, t: Translation, sprite: SpriteState, delta: u64)
    requires
        mv.wf(),
        mv.reach_fits(t),
        mv.movement_state == MovementState::Moving,
    ensures
        ({
            let m = mv.movement.unwrap();
            let r = mv.spec_advance(t, sprite, delta);
            let d1 = m.spec_tick(delta).due();
            let u = step_num(m.tile_size as int, t.den as int, m.steps as int);
            &&& r.2.wf()
            &&& r.2.reach_fits(r.0)
            &&& m.done() <= d1 <= m.steps
            &&& r.0.x == t.x + m.change_x * ((d1 - m.done()) * u)
            &&& r.0.y == t.y + m.change_y * ((d1 - m.done()) * u)
            &&& r.0.z == t.z
            &&& r.0.den == t.den
        }),
{
    let m = mv.movement.unwrap();
    let m1 = m.spec_tick(delta);
    let d0 = m.done();
    let d1 = m1.due();
    let si = m.steps as int;
    let u = step_num(m.tile_size as int, t.den as int, si);
    lemma_due_monotone(m.elapsed as int, m1.elapsed as int, m.steps as int, m.nanos as int);
    lemma_due_monotone(m1.elapsed as int, m.nanos as int, m.steps as int, m.nanos as int);
    assert(0 <= (d1 - d0) * u <= (si - d0) * u && (d1 - d0) * u + (si - d1) * u == (si - d0) * u)
        by (nonlinear_arith)
        requires
            d0 <= d1 <= si,
            0 <= u,
    ;
    lemma_unit_step_fits(t.x as int, m.change_x as int, 0, (d1 - d0) * u, (si - d0) * u);
    lemma_unit_step_fits(t.y as int, m.change_y as int, 0, (d1 - d0) * u, (si - d0) * u);
    lemma_scale_adds(m.change_x as int, (d1 - d0) * u, (si - d1) * u);
    lemma_scale_adds(m.change_y as int, (d1 - d0) * u, (si - d1) * u);
}

/// Ticks on a moving actor: substeps go by the time that has passed, capped
/// at the crossing's duration, however that time is cut into ticks.
proof fn lemma_run_moving(mv: MovableOnMap, t: Translation, sprite: SpriteState, deltas: Seq<u64>)
    requires
        mv.wf(),
        mv.reach_fits(t),
        mv.movement_state == MovementState::Moving,
    ensures
        ({
            let m = mv.movement.unwrap();
            let r = run(mv, t, sprite, deltas);
            let e = if m.elapsed + total_nanos(deltas) >= m.nanos {
                m.nanos as int
            } else {
                m.elapsed + total_nanos(deltas)
            };
            let d1 = due_steps(e, m.steps as int, m.nanos as int);
            let u = step_num(m.tile_size as int, t.den as int, m.steps as int);
            &&& r.3 == d1 - m.done()
            &&& r.0.x == t.x + m.change_x * ((d1 - m.done()) * u)
            &&& r.0.y == t.y + m.change_y * ((d1 - m.done()) * u)
            &&& r.0.z == t.z
            &&& r.0.den == t.den
            &&& (r.2.movement_state == MovementState::Idle) == (e == m.nanos)
            &&& (e == m.nanos) == (d1 == m.steps)
        }),
    decreases deltas.len(),
{
    let m = mv.movement.unwrap();
    let u = step_num(m.tile_size as int, t.den as int, m.steps as int);
    lemma_total_nonneg(deltas);
    if deltas.len() == 0 {
        lemma_due_monotone(m.elapsed as int, m.elapsed as int, m.steps as int, m.nanos as int);
        assert(m.change_x * (0 * u) == 0 && m.change_y * (0 * u) == 0) by (nonlinear_arith);
    } else {
        let first = mv.spec_advance(t, sprite, deltas[0]);
        let rest = deltas.drop_first();
        lemma_total_nonneg(rest);
        lemma_advance_wf(mv, t, sprite, deltas[0]);
        let m1 = m.spec_tick(deltas[0]);
        let d1 = m1.due();
        lemma_due_monotone(0, m1.elapsed as int, m.steps as int, m.nanos as int);
        if d1 == m.steps {
            lemma_run_idle(first.2, first.0, first.1, rest);
        } else {
            lemma_run_moving(first.2, first.0, first.1, rest);
            let e = if m.elapsed + total_nanos(deltas) >= m.nanos {
                m.nanos as int
            } else {
                m.elapsed + total_nanos(deltas)
            };
            let d2 = due_steps(e, m.steps as int, m.nanos as int);
            lemma_due_monotone(e, m.nanos as int, m.steps as int, m.nanos as int);
            let d0 = m.done();
            assert((d1 - d0) * u + (d2 - d1) * u == (d2 - d0) * u) by (nonlinear_arith);
            lemma_scale_adds(m.change_x as int, (d1 - d0) * u, (d2 - d1) * u);
            lemma_scale_adds(m.change_y as int, (d1 - d0) * u, (d2 - d1) * u);
        }
    }
}

/// A crossing, once its full duration has passed in ticks of any lengths,
/// has applied exactly its substep count, has moved the actor by exactly one
/// tile in its direction, and has left the actor idle. `start` is the
/// position at the trigger, which rewrites it as `spec_rescale(start, steps)`
/// with the same value; positions are compared by value, `x / den`.
pub proof fn lemma_crossing_covers_one_tile(
    event: MovementEvent,
    tile_size: u32,
    start: Translation,
    sprite: SpriteState,
    deltas: Seq<u64>,
)
    requires
        event.wf(),
        tile_size >= 1,
        start_fits(start, event, tile_size),
        total_nanos(deltas) >= event.nanos,
    ensures
        ({
            let t = spec_rescale(start, event.steps);
            let r = run(started(event, tile_size), t, sprite, deltas);
            &&& r.3 == event.steps
            &&& r.0.den == t.den
            &&& r.0.x == t.x + event.change_x * tile_size * t.den
            &&& r.0.y == t.y + event.change_y * tile_size * t.den
            &&& r.0.x * start.den == (start.x + event.change_x * tile_size * start.den) * r.0.den
            &&& r.0.y * start.den == (start.y + event.change_y * tile_size * start.den) * r.0.den
            &&& r.0.z == start.z
            &&& r.2.movement_state == MovementState::Idle
        }),
{
    let t = spec_rescale(start, event.steps);
    let mv = started(event, tile_size);
    lemma_rescale(start, event, tile_size);
    lemma_due_monotone(0, 0, event.steps as int, event.nanos as int);
    let si = event.steps as int;
    let u = step_num(tile_size as int, t.den as int, si);
    assert((si - 0) * u == si * u);
    lemma_run_moving(mv, t, sprite, deltas);
    let c = event.change_x as int;
    let d = event.change_y as int;
    let tl = tile_size as int;
    assert(c * (si * u) == c * tl * t.den && d * (si * u) == d * tl * t.den) by (nonlinear_arith)
        requires
            si * u == tl * t.den,
    ;
    assert((t.x + c * tl * t.den) * start.den == (start.x + c * tl * start.den) * t.den && (t.y + d
        * tl * t.den) * start.den == (start.y + d * tl * start.den) * t.den) by (nonlinear_arith)
        requires
            t.x * start.den == start.x * t.den,
            t.y * start.den == start.y * t.den,
    ;
}

/// From the trigger on, the actor is `Moving` exactly until the time of the
/// last substep has passed, and `Idle` from then on; the substeps applied
/// never exceed the substep count, and fall short of it exactly while the
/// actor moves.
pub proof fn lemma_moving_until_last_substep(
    event: MovementEvent,
    tile_size: u32,
    start: Translation,
    sprite: SpriteState,
    deltas: Seq<u64>,
)
    requires
        event.wf(),
        tile_size >= 1,
        start_fits(start, event, tile_size),
    ensures
        ({
            let r = run(started(event, tile_size), spec_rescale(start, event.steps), sprite, deltas);
            &&& (r.2.movement_state == MovementState::Moving) == (total_nanos(deltas)
                < event.nanos)
            &&& (r.2.movement_state == MovementState::Moving) == (r.3 < event.steps)
            &&& r.3 <= event.steps
        }),
{
    let t = spec_rescale(start, event.steps);
    let mv = started(event, tile_size);
    lemma_rescale(start, event, tile_size);
    lemma_due_monotone(0, 0, event.steps as int, event.nanos as int);
    let si = event.steps as int;
    let u = step_num(tile_size as int, t.den as int, si);
    assert((si - 0) * u == si * u);
    lemma_total_nonneg(deltas);
    lemma_run_moving(mv, t, sprite, deltas);
    let e = if total_nanos(deltas) >= event.nanos {
        event.nanos as int
    } else {
        total_nanos(deltas)
    };
    lemma_due_monotone(e, event.nanos as int, event.steps as int, event.nanos as int);
}

/// A trigger that reaches an actor in the middle of a crossing changes
/// nothing.
pub proof fn lemma_trigger_ignored_while_moving(
    mv: MovableOnMap,
    event: MovementEvent,
    tile_size: u32,
)
    requires
        mv.movement_state == MovementState::Moving,
    ensures
        mv.spec_on_move(event, tile_size) == mv,
{
}

} // verus!
