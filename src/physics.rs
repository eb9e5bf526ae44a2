//! Rigid bodies, their integration, and box collision resolution.

use vstd::prelude::*;
use crate::fixed::{add_sat, fx_add, fx_half, fx_mul, fx_sub, half, mul_fx, sub_sat};
use crate::vec3::{Axis, Vec3, vabs, vadd, vdiv, vscale, vsub, zero_vec};

verus! {

/// Gravitational acceleration: 9.81 units per second squared.
pub const GRAVITY: i64 = 9_810_000;

/// The box shape of a body, centred on the body's position.
#[derive(Clone, Copy, Debug, PartialEq, Eq, Structural)]
pub struct Collider {
    pub half_extents: Vec3,
}

/// The mutable physical state of one body.
#[derive(Clone, Copy, Debug, PartialEq, Eq, Structural)]
pub struct RigidBody {
    pub position: Vec3,
    pub velocity: Vec3,
    pub on_ground: bool,
    pub mass: i64,
    pub force: Vec3,
}

/// A static axis-aligned box obstacle.
#[derive(Clone, Copy, Debug, PartialEq, Eq, Structural)]
pub struct Aabb {
    pub center: Vec3,
    pub half_extents: Vec3,
}

/// A body borrowed for one simulation step, with its collider.
pub struct PhysicsObject<'a> {
    pub body: &'a mut RigidBody,
    pub collider: Collider,
}

/// No half-extent is negative.
pub open spec fn extents_valid(h: Vec3) -> bool {
    h.x >= 0 && h.y >= 0 && h.z >= 0
}

impl Collider {
    pub open spec fn wf(&self) -> bool {
        extents_valid(self.half_extents)
    }

    pub fn new(half_extents: Vec3) -> (r: Collider)
        requires
            extents_valid(half_extents),
        ensures
            r == (Collider { half_extents }),
            r.wf(),
    {
        Collider { half_extents }
    }
}

impl Aabb {
    pub open spec fn wf(&self) -> bool {
        extents_valid(self.half_extents)
    }

    pub fn new(center: Vec3, half_extents: Vec3) -> (r: Aabb)
        requires
            extents_valid(half_extents),
        ensures
            r == (Aabb { center, half_extents }),
            r.wf(),
    {
        Aabb { center, half_extents }
    }
}

/// A body at rest at `position`, not grounded, with nothing applied to it.
pub open spec fn fresh_body(mass: i64, position: Vec3) -> RigidBody {
    RigidBody { position, velocity: zero_vec(), on_ground: false, mass, force: zero_vec() }
}

/// `b` with `f` added to its accumulated force.
pub open spec fn force_applied(b: RigidBody, f: Vec3) -> RigidBody {
    RigidBody { force: vadd(b.force, f), ..b }
}

/// `b` with its velocity changed at once by `j / mass`.
pub open spec fn impulse_applied(b: RigidBody, j: Vec3) -> RigidBody {
    RigidBody { velocity: vadd(b.velocity, vdiv(j, b.mass as int)), ..b }
}

/// The weight of `b`: its mass times `GRAVITY`.
pub open spec fn weight(b: RigidBody) -> int {
    mul_fx(b.mass as int, GRAVITY as int)
}

/// `b` with its weight pulled from its vertical force, unless it is grounded.
pub open spec fn gravity_applied(b: RigidBody) -> RigidBody {
    if b.on_ground {
        b
    } else {
        RigidBody { force: b.force.with(Axis::Y, sub_sat(b.force.y as int, weight(b)) as i64), ..b }
    }
}

/// One semi-implicit Euler step of length `dt`: the velocity takes the
/// acceleration first, the position then takes the new velocity, and the
/// accumulated force is cleared.
pub open spec fn integrated(b: RigidBody, dt: int) -> RigidBody {
    let v = vadd(b.velocity, vscale(vdiv(b.force, b.mass as int), dt));
    RigidBody { velocity: v, position: vadd(b.position, vscale(v, dt)), force: zero_vec(), ..b }
}

/// Per-axis penetration of a box at `pa` with half-extents `ha` into a box at
/// `pb` with half-extents `hb`: `ha + hb - |pa - pb|`.
pub open spec fn overlap_of(pa: Vec3, ha: Vec3, pb: Vec3, hb: Vec3) -> Vec3 {
    vsub(vadd(ha, hb), vabs(vsub(pa, pb)))
}

/// The boxes intersect: the overlap is positive on all three axes.
pub open spec fn penetrating(o: Vec3) -> bool {
    o.x > 0 && o.y > 0 && o.z > 0
}

/// The axis of least overlap. X wins only when strictly below both others,
/// and Y only when strictly below Z, so a tie goes to the later axis: Y over
/// X, and Z over both.
pub open spec fn least_axis(o: Vec3) -> Axis {
    if o.x < o.y && o.x < o.z {
        Axis::X
    } else if o.y < o.z {
        Axis::Y
    } else {
        Axis::Z
    }
}

/// `center` moved by `extent` toward the side that `d` points to
/// (a non-positive `d` counts as the negative side).
pub open spec fn surface(center: int, extent: int, d: int) -> int {
    if d > 0 {
        add_sat(center, extent)
    } else {
        sub_sat(center, extent)
    }
}

/// `b` resolved against one obstacle: when they intersect, `b` is snapped
/// onto the obstacle's face along the axis of least overlap, its velocity on
/// that axis is zeroed, and landing on top grounds it.
pub open spec fn resolved_one(b: RigidBody, c: Collider, obs: Aabb) -> RigidBody {
    let d = vsub(b.position, obs.center);
    let o = overlap_of(b.position, c.half_extents, obs.center, obs.half_extents);
    if !penetrating(o) {
        b
    } else {
        let ax = least_axis(o);
        let p = surface(
            obs.center.at(ax),
            add_sat(obs.half_extents.at(ax), c.half_extents.at(ax)),
            d.at(ax),
        );
        RigidBody {
            position: b.position.with(ax, p as i64),
            velocity: b.velocity.with(ax, 0),
            on_ground: b.on_ground || (ax == Axis::Y && d.y > 0),
            ..b
        }
    }
}

/// `b` resolved against each obstacle of `obs` in order.
pub open spec fn resolved_all(b: RigidBody, c: Collider, obs: Seq<Aabb>) -> RigidBody
    decreases obs.len(),
{
    if obs.len() == 0 {
        b
    } else {
        resolved_one(resolved_all(b, c, obs.drop_last()), c, obs.last())
    }
}

/// Two bodies resolved against each other, and whether they collided: each
/// is pushed half the overlap apart along the axis of least overlap, both
/// lose their velocity on that axis, and `a` is grounded when it lands on top
/// of `b`.
pub open spec fn pair_resolved(a: RigidBody, ca: Collider, b: RigidBody, cb: Collider) -> (
    RigidBody,
    RigidBody,
    bool,
) {
    let d = vsub(a.position, b.position);
    let o = overlap_of(a.position, ca.half_extents, b.position, cb.half_extents);
    if !penetrating(o) {
        (a, b, false)
    } else {
        let ax = least_axis(o);
        let push = half(o.at(ax));
        let pa = if d.at(ax) > 0 {
            add_sat(a.position.at(ax), push)
        } else {
            sub_sat(a.position.at(ax), push)
        };
        let pb = if d.at(ax) > 0 {
            sub_sat(b.position.at(ax), push)
        } else {
            add_sat(b.position.at(ax), push)
        };
        (
            RigidBody {
                position: a.position.with(ax, pa as i64),
                velocity: a.velocity.with(ax, 0),
                on_ground: a.on_ground || (ax == Axis::Y && d.y > 0),
                ..a
            },
            RigidBody { position: b.position.with(ax, pb as i64), velocity: b.velocity.with(ax, 0), ..b },
            true,
        )
    }
}

/// The bodies that a list of physics objects refers to.
pub open spec fn bodies(objs: Seq<PhysicsObject>) -> Seq<RigidBody> {
    Seq::new(objs.len(), |i: int| *objs[i].body)
}

/// The colliders of a list of physics objects.
pub open spec fn colliders(objs: Seq<PhysicsObject>) -> Seq<Collider> {
    Seq::new(objs.len(), |i: int| objs[i].collider)
}

/// `b` with its ground contact cleared, as every frame starts: only a
/// landing during the frame grounds it again.
pub open spec fn airborne(b: RigidBody) -> RigidBody {
    RigidBody { on_ground: false, ..b }
}

/// One body's frame before any pairwise resolution: ground contact cleared,
/// gravity, integration, then the static obstacles.
pub open spec fn moved(b: RigidBody, c: Collider, obs: Seq<Aabb>, dt: int) -> RigidBody {
    resolved_all(integrated(gravity_applied(airborne(b)), dt), c, obs)
}

/// Every body moved by its own frame, independently of the others.
pub open spec fn static_pass(bs: Seq<RigidBody>, cs: Seq<Collider>, obs: Seq<Aabb>, dt: int) -> Seq<
    RigidBody,
> {
    Seq::new(bs.len(), |i: int| moved(bs[i], cs[i], obs, dt))
}

/// The bodies and the colliding pairs found so far.
pub type PassState = (Seq<RigidBody>, Seq<(usize, usize)>);

/// The pair `(i, j)` resolved, and recorded when it collided.
pub open spec fn visit(s: PassState, cs: Seq<Collider>, i: int, j: int) -> PassState {
    let r = pair_resolved(s.0[i], cs[i], s.0[j], cs[j]);
    (s.0.update(i, r.0).update(j, r.1), if r.2 {
        s.1.push((i as usize, j as usize))
    } else {
        s.1
    })
}

/// The pairs `(i, i + 1)`, ..., `(i, j - 1)` visited in that order.
pub open spec fn row(s: PassState, cs: Seq<Collider>, i: int, j: int) -> PassState
    decreases j - i,
{
    if j <= i + 1 {
        s
    } else {
        visit(row(s, cs, i, j - 1), cs, i, j - 1)
    }
}

/// Every pair `(k, l)` with `k < i` and `k < l < n`, in ascending order.
pub open spec fn rows(s: PassState, cs: Seq<Collider>, i: int, n: int) -> PassState
    decreases i,
{
    if i <= 0 {
        s
    } else {
        row(rows(s, cs, i - 1, n), cs, i - 1, n)
    }
}

/// Every unordered pair of bodies visited once, in ascending order, starting
/// from no recorded pairs.
pub open spec fn pairwise_pass(bs: Seq<RigidBody>, cs: Seq<Collider>) -> PassState {
    rows((bs, Seq::empty()), cs, bs.len() as int, bs.len() as int)
}

/// One full frame of the simulation over the bodies `bs`.
pub open spec fn stepped(bs: Seq<RigidBody>, cs: Seq<Collider>, obs: Seq<Aabb>, dt: int) -> PassState {
    pairwise_pass(static_pass(bs, cs, obs, dt), cs)
}

impl RigidBody {
    /// The mass is positive.
    pub open spec fn wf(&self) -> bool {
        self.mass > 0
    }

    pub fn new(mass: i64, position: Vec3) -> (r: RigidBody)
        requires
            mass > 0,
        ensures
            r == fresh_body(mass, position),
            r.wf(),
    {
        RigidBody { position, velocity: Vec3::zero(), on_ground: false, mass, force: Vec3::zero() }
    }

    /// Adds `force` to the force accumulated for the next integration.
    pub fn apply_force(&mut self, force: Vec3)
        ensures
            *final(self) == force_applied(*old(self), force),
    {
        self.force = self.force.plus(&force);
    }

    /// Changes the velocity at once by `impulse / mass`.
    pub fn apply_impulse(&mut self, impulse: Vec3)
        requires
            old(self).wf(),
        ensures
            *final(self) == impulse_applied(*old(self), impulse),
    {
        let dv = impulse.divided(self.mass);
        self.velocity = self.velocity.plus(&dv);
    }
}

/// Pulls a body that is not grounded down by its weight.
pub fn apply_gravity(body: &mut RigidBody)
    ensures
        *final(body) == gravity_applied(*old(body)),
{
    if !body.on_ground {
        let w = fx_mul(body.mass, GRAVITY);
        body.force.y = fx_sub(body.force.y, w);
    }
}

/// Advances a body by `dt` and clears its accumulated force.
pub fn integrate(body: &mut RigidBody, dt: i64)
    requires
        old(body).wf(),
    ensures
        *final(body) == integrated(*old(body), dt as int),
{
    let acceleration = body.force.divided(body.mass);
    body.velocity = body.velocity.plus(&acceleration.scaled(dt));
    body.position = body.position.plus(&body.velocity.scaled(dt));
    body.force = Vec3::zero();
}

/// Per-axis penetration of two boxes, `ha + hb - |pa - pb|`.
fn overlap(pa: &Vec3, ha: &Vec3, pb: &Vec3, hb: &Vec3) -> (r: Vec3)
    ensures
        r == overlap_of(*pa, *ha, *pb, *hb),
{
    ha.plus(hb).minus(&pa.minus(pb).abs())
}

fn is_penetrating(o: &Vec3) -> (r: bool)
    ensures
        r == penetrating(*o),
{
    o.x > 0 && o.y > 0 && o.z > 0
}

/// The axis along which the least movement separates two intersecting boxes.
fn separation_axis(o: &Vec3) -> (r: Axis)
    ensures
        r == least_axis(*o),
{
    if o.x < o.y && o.x < o.z {
        Axis::X
    } else if o.y < o.z {
        Axis::Y
    } else {
        Axis::Z
    }
}

/// Resolves a body against one obstacle.
fn resolve_one(body: &mut RigidBody, collider: &Collider, obs: &Aabb)
    ensures
        *final(body) == resolved_one(*old(body), *collider, *obs),
{
    let delta = body.position.minus(&obs.center);
    let o = overlap(&body.position, &collider.half_extents, &obs.center, &obs.half_extents);
    if is_penetrating(&o) {
        let ax = separation_axis(&o);
        let extent = fx_add(obs.half_extents.get(ax), collider.half_extents.get(ax));
        let c = obs.center.get(ax);
        let p = if delta.get(ax) > 0 {
            fx_add(c, extent)
        } else {
            fx_sub(c, extent)
        };
        body.position.set(ax, p);
        body.velocity.set(ax, 0);
        if ax == Axis::Y && delta.y > 0 {
            body.on_ground = true;
        }
    }
}

/// Resolves a body against each static obstacle in turn, each from where the
/// previous one left it.
pub fn resolve_aabb_collisions(body: &mut RigidBody, collider: &Collider, obstacles: &[Aabb])
    ensures
        *final(body) == resolved_all(*old(body), *collider, obstacles@),
{
    let n = obstacles.len();
    let mut i: usize = 0;
    while i < n
        invariant
            n == obstacles@.len(),
            0 <= i <= n,
            *body == resolved_all(*old(body), *collider, obstacles@.subrange(0, i as int)),
        decreases n - i,
    {
        proof {
            assert(obstacles@.subrange(0, i + 1).drop_last() =~= obstacles@.subrange(0, i as int));
        }
        resolve_one(body, collider, &obstacles[i]);
        i += 1;
    }
    proof {
        assert(obstacles@.subrange(0, n as int) =~= obstacles@);
    }
}

/// Resolves two bodies against each other; returns whether they collided.
pub fn resolve_pair(a: &mut PhysicsObject, b: &mut PhysicsObject) -> (hit: bool)
    ensures
        (*final(a).body, *final(b).body, hit) == pair_resolved(
            *old(a).body,
            old(a).collider,
            *old(b).body,
            old(b).collider,
        ),
        final(a).collider == old(a).collider,
        final(b).collider == old(b).collider,
{
    let delta = a.body.position.minus(&b.body.position);
    let o = overlap(&a.body.position, &a.collider.half_extents, &b.body.position, &b.collider.half_extents);
    if is_penetrating(&o) {
        let ax = separation_axis(&o);
        let push = fx_half(o.get(ax));
        let pa = a.body.position.get(ax);
        let pb = b.body.position.get(ax);
        if delta.get(ax) > 0 {
            a.body.position.set(ax, fx_add(pa, push));
            b.body.position.set(ax, fx_sub(pb, push));
        } else {
            a.body.position.set(ax, fx_sub(pa, push));
            b.body.position.set(ax, fx_add(pb, push));
        }
        a.body.velocity.set(ax, 0);
        b.body.velocity.set(ax, 0);
        if ax == Axis::Y && delta.y > 0 {
            a.body.on_ground = true;
        }
        true
    } else {
        false
    }
}

/// Advances every object by one frame of length `dt`, then resolves every
/// unordered pair `(i, j)`, `i < j`, in ascending order, and returns the
/// pairs that collided.
pub fn step(objects: &mut [PhysicsObject], static_obs: &[Aabb], dt: i64) -> (pairs: Vec<(usize, usize)>)
    requires
        forall|i: int| 0 <= i < old(objects)@.len() ==> (#[trigger] old(objects)@[i]).body.wf(),
    ensures
        final(objects)@.len() == old(objects)@.len(),
        colliders(final(objects)@) == colliders(old(objects)@),
        (bodies(final(objects)@), pairs@) == stepped(
            bodies(old(objects)@),
            colliders(old(objects)@),
            static_obs@,
            dt as int,
        ),
{
    let n = objects.len();
    let ghost bs0 = bodies(objects@);
    let ghost cs = colliders(objects@);
    let mut k: usize = 0;
    while k < n
        invariant
            n == objects@.len(),
            n == old(objects)@.len(),
            0 <= k <= n,
            bs0 == bodies(old(objects)@),
            cs == colliders(old(objects)@),
            colliders(objects@) == cs,
            forall|m: int| 0 <= m < k ==> *(#[trigger] objects@[m]).body == moved(bs0[m], cs[m], static_obs@, dt as int),
            forall|m: int| k <= m < n ==> *(#[trigger] objects@[m]).body == bs0[m],
            forall|m: int| k <= m < n ==> (#[trigger] old(objects)@[m]).body.wf(),
        decreases n - k,
    {
        let ghost before = objects@;
        proof {
            assert(old(objects)@[k as int].body.wf());
            assert(bs0[k as int] == *old(objects)@[k as int].body);
        }
        let obj = &mut objects[k];
        obj.body.on_ground = false;
        apply_gravity(obj.body);
        integrate(obj.body, dt);
        resolve_aabb_collisions(obj.body, &obj.collider, static_obs);
        proof {
            assert(colliders(objects@) =~= colliders(before));
        }
        k += 1;
    }
    let ghost s0: PassState = (bodies(objects@), Seq::empty());
    proof {
        assert(s0.0 =~= static_pass(bs0, cs, static_obs@, dt as int));
    }
    let mut pairs: Vec<(usize, usize)> = Vec::new();
    let mut i: usize = 0;
    while i < n
        invariant
            n == objects@.len(),
            0 <= i <= n,
            colliders(objects@) == cs,
            cs == colliders(old(objects)@),
            (bodies(objects@), pairs@) == rows(s0, cs, i as int, n as int),
        decreases n - i,
    {
        let mut j: usize = i + 1;
        while j < n
            invariant
                n == objects@.len(),
                i < n,
                i + 1 <= j <= n,
                colliders(objects@) == cs,
                (bodies(objects@), pairs@) == row(rows(s0, cs, i as int, n as int), cs, i as int, j as int),
            decreases n - j,
        {
            let ghost before = objects@;
            let (left, right) = objects.split_at_mut(j);
            let a = &mut left[i];
            let b = &mut right[0];
            let hit = resolve_pair(a, b);
            if hit {
                pairs.push((i, j));
            }
            proof {
                let r = pair_resolved(*before[i as int].body, cs[i as int], *before[j as int].body, cs[j as int]);
                assert(bodies(objects@) =~= bodies(before).update(i as int, r.0).update(j as int, r.1));
                assert(colliders(objects@) =~= colliders(before));
            }
            j += 1;
        }
        i += 1;
    }
    pairs
}

} // verus!
