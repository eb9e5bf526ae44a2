//! Properties that hold of the physics core as a whole, proved from the
//! contracts of its functions.

use vstd::prelude::*;
use crate::fixed::{half, SCALE};
use crate::physics::{
    airborne, force_applied, gravity_applied, integrated, least_axis, moved, overlap_of,
    pair_resolved, pairwise_pass, penetrating, resolved_all, resolved_one, row, rows,
    static_pass, stepped, visit, weight, Aabb, Collider, PassState, RigidBody, GRAVITY,
};
use crate::vec3::{vabs, vadd, vdiv, vscale, vsub, zero_vec, Axis, Vec3};

verus! {

/// Gravity leaves a grounded body untouched, and strictly lowers the vertical
/// force of a body in the air (unless that force is already at its floor).
pub proof fn gravity_gating(b: RigidBody)
    requires
        b.wf(),
    ensures
        b.on_ground ==> gravity_applied(b) == b,
        !b.on_ground && b.force.y > i64::MIN ==> gravity_applied(b).force.y < b.force.y,
{
    let m = b.mass as int;
    assert(m * GRAVITY >= SCALE * 9) by (nonlinear_arith)
        requires
            m >= 1,
    ;
    assert((m * GRAVITY) / (SCALE as int) >= 9) by (nonlinear_arith)
        requires
            m * GRAVITY >= SCALE * 9,
    ;
    assert(weight(b) > 0);
}

/// The force accumulator does not depend on the order in which forces are
/// applied, as long as no running total leaves the range of `i64`.
pub proof fn forces_commute(b: RigidBody, f: Vec3, g: Vec3)
    requires
        i64::MIN <= b.force.x + f.x <= i64::MAX,
        i64::MIN <= b.force.y + f.y <= i64::MAX,
        i64::MIN <= b.force.z + f.z <= i64::MAX,
        i64::MIN <= b.force.x + g.x <= i64::MAX,
        i64::MIN <= b.force.y + g.y <= i64::MAX,
        i64::MIN <= b.force.z + g.z <= i64::MAX,
        i64::MIN <= b.force.x + f.x + g.x <= i64::MAX,
        i64::MIN <= b.force.y + f.y + g.y <= i64::MAX,
        i64::MIN <= b.force.z + f.z + g.z <= i64::MAX,
    ensures
        force_applied(force_applied(b, f), g) == force_applied(force_applied(b, g), f),
{
}

/// From rest, one integration under a force `f` gives the velocity
/// `(f / mass) * dt`, then moves the position by that new velocity times
/// `dt`, and clears the force.
pub proof fn integration_from_rest(b: RigidBody, f: Vec3, dt: i64)
    requires
        b.wf(),
        b.velocity == zero_vec(),
        b.force == zero_vec(),
    ensures
        integrated(force_applied(b, f), dt as int).velocity == vscale(vdiv(f, b.mass as int), dt as int),
        integrated(force_applied(b, f), dt as int).position == vadd(
            b.position,
            vscale(integrated(force_applied(b, f), dt as int).velocity, dt as int),
        ),
        integrated(force_applied(b, f), dt as int).force == zero_vec(),
{
    assert(vadd(zero_vec(), f) == f);
    let a = vscale(vdiv(f, b.mass as int), dt as int);
    assert(vadd(zero_vec(), a) == a);
}

/// A body that intersects none of the obstacles is left exactly as it was.
pub proof fn resolution_without_overlap(b: RigidBody, c: Collider, obs: Seq<Aabb>)
    requires
        forall|k: int|
            0 <= k < obs.len() ==> !penetrating(
                #[trigger] overlap_of(b.position, c.half_extents, obs[k].center, obs[k].half_extents),
            ),
    ensures
        resolved_all(b, c, obs) == b,
    decreases obs.len(),
{
    if obs.len() > 0 {
        let rest = obs.drop_last();
        assert forall|k: int| 0 <= k < rest.len() implies !penetrating(
            #[trigger] overlap_of(b.position, c.half_extents, rest[k].center, rest[k].half_extents),
        ) by {
            assert(rest[k] == obs[k]);
        }
        resolution_without_overlap(b, c, rest);
        let last = obs[obs.len() - 1];
        assert(!penetrating(overlap_of(b.position, c.half_extents, last.center, last.half_extents)));
    }
}

/// A body that comes down into a floor from above during a frame, with its
/// least overlap along the vertical axis, ends the frame resting on the
/// floor's top: no vertical velocity, grounded, its centre one half-height
/// above the top, and otherwise as integration left it.
pub proof fn ground_landing(b: RigidBody, c: Collider, floor: Aabb, dt: i64)
    requires
        b.wf(),
        ({
            let m = integrated(gravity_applied(airborne(b)), dt as int);
            let o = overlap_of(m.position, c.half_extents, floor.center, floor.half_extents);
            &&& penetrating(o)
            &&& o.y <= o.x
            &&& o.y < o.z
            &&& m.position.y > floor.center.y
        }),
        i64::MIN <= floor.half_extents.y + c.half_extents.y <= i64::MAX,
        i64::MIN <= floor.center.y + floor.half_extents.y + c.half_extents.y <= i64::MAX,
    ensures
        moved(b, c, seq![floor], dt as int).velocity.y == 0,
        moved(b, c, seq![floor], dt as int).on_ground,
        moved(b, c, seq![floor], dt as int).position.y == floor.center.y + floor.half_extents.y
            + c.half_extents.y,
        ({
            let m = integrated(gravity_applied(airborne(b)), dt as int);
            let top = floor.center.y + floor.half_extents.y + c.half_extents.y;
            moved(b, c, seq![floor], dt as int) == (RigidBody {
                position: m.position.with(Axis::Y, top as i64),
                velocity: m.velocity.with(Axis::Y, 0),
                on_ground: true,
                ..m
            })
        }),
{
    let m = integrated(gravity_applied(airborne(b)), dt as int);
    let o = overlap_of(m.position, c.half_extents, floor.center, floor.half_extents);
    assert(least_axis(o) == Axis::Y);
    assert(seq![floor].drop_last() =~= Seq::<Aabb>::empty());
    assert(resolved_all(m, c, Seq::<Aabb>::empty()) == m);
    assert(seq![floor].last() == floor);
    assert(resolved_all(m, c, seq![floor]) == resolved_one(m, c, floor));
}

/// A body at rest exactly on top of a floor, with no force on it, sinks
/// during a frame by its fall `d` and is snapped back: the frame leaves it
/// where it was, at rest and grounded, and reports no pair, so it stays put
/// frame after frame. This holds when the fall is not rounded away to
/// nothing and is shallower than the floor and the horizontal overlaps.
pub proof fn resting_body_stays(b: RigidBody, c: Collider, floor: Aabb, dt: i64)
    requires
        b.wf(),
        c.wf(),
        floor.wf(),
        b.velocity == zero_vec(),
        b.force == zero_vec(),
        floor.half_extents.y + c.half_extents.y <= i64::MAX,
        floor.center.y + floor.half_extents.y + c.half_extents.y <= i64::MAX,
        b.position.y == floor.center.y + floor.half_extents.y + c.half_extents.y,
        ({
            let m = integrated(gravity_applied(airborne(b)), dt as int);
            let d = b.position.y - m.position.y;
            let o = overlap_of(b.position, c.half_extents, floor.center, floor.half_extents);
            &&& 0 < d
            &&& d <= o.x
            &&& d < o.z
            &&& d < floor.half_extents.y + c.half_extents.y
        }),
    ensures
        stepped(seq![b], seq![c], seq![floor], dt as int) == (
            seq![RigidBody { on_ground: true, ..b }],
            Seq::<(usize, usize)>::empty(),
        ),
{
    let g = gravity_applied(airborne(b));
    let m = integrated(g, dt as int);
    let acc = vdiv(g.force, b.mass as int);
    assert(acc.x == 0 && acc.z == 0);
    assert(vscale(acc, dt as int).x == 0 && vscale(acc, dt as int).z == 0);
    assert(m.velocity.x == 0 && m.velocity.z == 0);
    assert(vscale(m.velocity, dt as int).x == 0 && vscale(m.velocity, dt as int).z == 0);
    assert(m.position.x == b.position.x && m.position.z == b.position.z);
    let sh = floor.half_extents.y + c.half_extents.y;
    let d = b.position.y - m.position.y;
    let o = overlap_of(b.position, c.half_extents, floor.center, floor.half_extents);
    let om = overlap_of(m.position, c.half_extents, floor.center, floor.half_extents);
    assert(m.position.y - floor.center.y == sh - d);
    assert(vsub(m.position, floor.center).y == sh - d);
    assert(vabs(vsub(m.position, floor.center)).y == sh - d);
    assert(vadd(c.half_extents, floor.half_extents).y == sh);
    assert(om.y == d);
    assert(om.x == o.x && om.z == o.z);
    ground_landing(b, c, floor, dt);
    let r = RigidBody { on_ground: true, ..b };
    assert(m.position.with(Axis::Y, b.position.y) == b.position);
    assert(m.velocity.with(Axis::Y, 0) == b.velocity);
    assert(moved(b, c, seq![floor], dt as int) == r);
    let bs = static_pass(seq![b], seq![c], seq![floor], dt as int);
    assert(bs =~= seq![r]);
    let s: PassState = (bs, Seq::empty());
    assert(rows(s, seq![c], 0, 1) == s);
    assert(row(s, seq![c], 0, 1) == s);
    assert(rows(s, seq![c], 1, 1) == s);
}

/// When two bodies collide, each moves half the overlap along the
/// separation axis, in opposite directions, and neither moves along the
/// other axes.
pub proof fn pair_symmetry(a: RigidBody, ca: Collider, b: RigidBody, cb: Collider)
    requires
        penetrating(overlap_of(a.position, ca.half_extents, b.position, cb.half_extents)),
        ({
            let o = overlap_of(a.position, ca.half_extents, b.position, cb.half_extents);
            let ax = least_axis(o);
            let push = half(o.at(ax));
            &&& i64::MIN + push <= a.position.at(ax) <= i64::MAX - push
            &&& i64::MIN + push <= b.position.at(ax) <= i64::MAX - push
        }),
    ensures
        ({
            let o = overlap_of(a.position, ca.half_extents, b.position, cb.half_extents);
            let ax = least_axis(o);
            let push = half(o.at(ax));
            let r = pair_resolved(a, ca, b, cb);
            let da = r.0.position.at(ax) - a.position.at(ax);
            let db = r.1.position.at(ax) - b.position.at(ax);
            &&& r.2
            &&& da == -db
            &&& (da == push || da == -push)
            &&& forall|other: Axis|
                other != ax ==> r.0.position.at(other) == a.position.at(other)
                    && r.1.position.at(other) == b.position.at(other)
        }),
{
    let o = overlap_of(a.position, ca.half_extents, b.position, cb.half_extents);
    let ax = least_axis(o);
    let push = half(o.at(ax));
    assert(push >= 0);
}

/// Two bodies whose boxes are apart along some axis are left untouched by
/// pair resolution, and no collision is reported.
pub proof fn no_false_collision(a: RigidBody, ca: Collider, b: RigidBody, cb: Collider)
    requires
        !penetrating(overlap_of(a.position, ca.half_extents, b.position, cb.half_extents)),
    ensures
        pair_resolved(a, ca, b, cb) == (a, b, false),
{
}

/// No two of the bodies intersect.
pub open spec fn apart(bs: Seq<RigidBody>, cs: Seq<Collider>) -> bool {
    forall|k: int, l: int|
        0 <= k < l < bs.len() ==> !penetrating(
            #[trigger] overlap_of(bs[k].position, cs[k].half_extents, bs[l].position, cs[l].half_extents),
        )
}

proof fn lemma_row_apart(s: PassState, cs: Seq<Collider>, i: int, j: int)
    requires
        0 <= i,
        j <= s.0.len(),
        cs.len() == s.0.len(),
        apart(s.0, cs),
    ensures
        row(s, cs, i, j) == s,
    decreases j - i,
{
    if j > i + 1 {
        lemma_row_apart(s, cs, i, j - 1);
        let k = j - 1;
        assert(!penetrating(
            overlap_of(s.0[i].position, cs[i].half_extents, s.0[k].position, cs[k].half_extents),
        ));
        assert(s.0.update(i, s.0[i]).update(k, s.0[k]) =~= s.0);
    }
}

proof fn lemma_rows_apart(s: PassState, cs: Seq<Collider>, i: int)
    requires
        0 <= i,
        cs.len() == s.0.len(),
        apart(s.0, cs),
    ensures
        rows(s, cs, i, s.0.len() as int) == s,
    decreases i,
{
    if i > 0 {
        lemma_rows_apart(s, cs, i - 1);
        lemma_row_apart(s, cs, i - 1, s.0.len() as int);
    }
}

/// When no two bodies intersect after the static pass, a frame reports no
/// pair, and the pairwise pass moves nothing.
pub proof fn no_contact_no_pairs(bs: Seq<RigidBody>, cs: Seq<Collider>, obs: Seq<Aabb>, dt: i64)
    requires
        cs.len() == bs.len(),
        apart(static_pass(bs, cs, obs, dt as int), cs),
    ensures
        stepped(bs, cs, obs, dt as int) == (
            static_pass(bs, cs, obs, dt as int),
            Seq::<(usize, usize)>::empty(),
        ),
{
    let s: PassState = (static_pass(bs, cs, obs, dt as int), Seq::empty());
    lemma_rows_apart(s, cs, bs.len() as int);
}

/// Of three bodies, when after the static pass only the first and the last
/// intersect, and the last one's push does not drive it into the middle one,
/// a frame reports exactly the pair `(0, 2)` and the middle body leaves the
/// pairwise pass as the static pass left it.
pub proof fn step_reports_only_overlapping_pair(
    bs: Seq<RigidBody>,
    cs: Seq<Collider>,
    obs: Seq<Aabb>,
    dt: i64,
)
    requires
        bs.len() == 3,
        cs.len() == 3,
        ({
            let s = static_pass(bs, cs, obs, dt as int);
            let pushed = pair_resolved(s[0], cs[0], s[2], cs[2]).1;
            &&& !penetrating(overlap_of(s[0].position, cs[0].half_extents, s[1].position, cs[1].half_extents))
            &&& penetrating(overlap_of(s[0].position, cs[0].half_extents, s[2].position, cs[2].half_extents))
            &&& !penetrating(overlap_of(s[1].position, cs[1].half_extents, s[2].position, cs[2].half_extents))
            &&& !penetrating(overlap_of(s[1].position, cs[1].half_extents, pushed.position, cs[2].half_extents))
        }),
    ensures
        stepped(bs, cs, obs, dt as int).1 == seq![(0usize, 2usize)],
        stepped(bs, cs, obs, dt as int).0[1] == static_pass(bs, cs, obs, dt as int)[1],
{
    let s = static_pass(bs, cs, obs, dt as int);
    let s0: PassState = (s, Seq::empty());
    let s1 = visit(s0, cs, 0, 1);
    assert(s.update(0, s[0]).update(1, s[1]) =~= s);
    assert(s1 == s0);
    let s2 = visit(s1, cs, 0, 2);
    assert(row(s0, cs, 0, 1) == s0);
    assert(row(s0, cs, 0, 2) == s1);
    assert(row(s0, cs, 0, 3) == s2);
    assert(rows(s0, cs, 0, 3) == s0);
    assert(rows(s0, cs, 1, 3) == s2);
    assert(s2.0[1] == s[1]);
    assert(s2.0[2] == pair_resolved(s[0], cs[0], s[2], cs[2]).1);
    let s3 = visit(s2, cs, 1, 2);
    assert(s2.0.update(1, s2.0[1]).update(2, s2.0[2]) =~= s2.0);
    assert(s3 == s2);
    assert(row(s2, cs, 1, 2) == s2);
    assert(row(s2, cs, 1, 3) == s3);
    assert(rows(s0, cs, 2, 3) == s3);
    assert(row(s3, cs, 2, 3) == s3);
    assert(rows(s0, cs, 3, 3) == s3);
    assert(s2.1 =~= seq![(0usize, 2usize)]);
}

} // verus!
