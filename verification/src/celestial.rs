//! The celestial sketcher: an N-body simulation under pairwise attraction,
//! rendered as the objects' trajectories.
//!
//! Initialization samples positions, masses and velocities from closed
//! uniform ranges, and overrides the last object's velocity to cancel the
//! momentum of all the others. Each step accumulates pairwise forces with
//! coincident objects contributing nothing, then integrates velocity and
//! position; an object's position before the move is appended to its path,
//! so a path holds exactly one point per step taken.

use crate::canvas::VectorCanvas;
use crate::color::Color;
use crate::error::ConfigError;
use crate::fixed::{fx_add, fx_div, fx_mul, fx_neg, fx_sqrt, fx_sub, Fx};
use crate::geom::{distance_spec, V2};
use crate::rng::{rng_between, rng_from_seed};
use crate::shape::{Line, RegularPolygon, Shape, Stroke};
use rand::rngs::SmallRng;
use vstd::prelude::*;

verus! {

/// Fixed-point pi, the mass-to-radius constant of the renderer.
pub const FX_PI: i64 = 205887;

/// The configuration of a celestial simulation. Each sampled quantity is
/// drawn uniformly from a closed range.
#[derive(Clone, Copy, Debug)]
pub struct CelestialSketcherSettings {
    /// The number of objects to simulate.
    pub object_count: usize,
    /// The number of objects to include in the render.
    pub render_count: usize,
    /// The range of initial object positions, per axis.
    pub object_position_min: Fx,
    pub object_position_max: Fx,
    /// The range of object masses.
    pub object_size_min: Fx,
    pub object_size_max: Fx,
    /// The range of initial object velocities, per axis.
    pub object_velocity_min: Fx,
    pub object_velocity_max: Fx,
    /// The universal gravitational constant.
    pub g: Fx,
    /// The color to draw objects.
    pub foreground: Color,
    /// The number of steps to simulate.
    pub steps: usize,
    /// How much time passes between steps.
    pub step_length: Fx,
    /// Render paths as one regular polygon per sample with this many sides
    /// instead of as a single polyline per object.
    pub render_polygon: Option<usize>,
}

impl CelestialSketcherSettings {
    /// The sampling ranges are ordered; an empty range cannot be drawn
    /// from.
    pub open spec fn ranges_wf(&self) -> bool {
        &&& self.object_position_min <= self.object_position_max
        &&& self.object_size_min <= self.object_size_max
        &&& self.object_velocity_min <= self.object_velocity_max
    }
}

/// One simulated point mass and the path it has traced.
#[derive(Debug)]
pub struct CelestialObject {
    pub position: V2,
    pub velocity: V2,
    pub mass: Fx,
    pub path: Vec<V2>,
}

/// The total momentum of a system along `x`: the sum of `velocity * mass`.
pub open spec fn momentum_x(objs: Seq<CelestialObject>) -> i64
    decreases objs.len(),
{
    if objs.len() == 0 {
        0
    } else {
        fx_add(momentum_x(objs.drop_last()), fx_mul(objs.last().velocity.x, objs.last().mass))
    }
}

/// The total momentum of a system along `y`.
pub open spec fn momentum_y(objs: Seq<CelestialObject>) -> i64
    decreases objs.len(),
{
    if objs.len() == 0 {
        0
    } else {
        fx_add(momentum_y(objs.drop_last()), fx_mul(objs.last().velocity.y, objs.last().mass))
    }
}

/// The `x` force one body exerts on another: zero when the two positions
/// coincide, else `g * m1 * m2 / distance` towards the other body.
pub open spec fn pair_force_x(g: Fx, pos: V2, mass: Fx, opos: V2, omass: Fx) -> i64 {
    if pos == opos {
        0
    } else {
        let d = distance_spec(pos, opos) as i64;
        fx_mul(fx_div(fx_mul(fx_mul(g, mass), omass), d), fx_sub(opos.x, pos.x))
    }
}

/// The `y` force one body exerts on another.
pub open spec fn pair_force_y(g: Fx, pos: V2, mass: Fx, opos: V2, omass: Fx) -> i64 {
    if pos == opos {
        0
    } else {
        let d = distance_spec(pos, opos) as i64;
        fx_mul(fx_div(fx_mul(fx_mul(g, mass), omass), d), fx_sub(opos.y, pos.y))
    }
}

/// The accumulated `x` force on a body from a snapshot of (position, mass)
/// pairs.
pub open spec fn force_x(g: Fx, pos: V2, mass: Fx, others: Seq<(V2, Fx)>) -> i64
    decreases others.len(),
{
    if others.len() == 0 {
        0
    } else {
        fx_add(
            force_x(g, pos, mass, others.drop_last()),
            pair_force_x(g, pos, mass, others.last().0, others.last().1),
        )
    }
}

/// The accumulated `y` force on a body.
pub open spec fn force_y(g: Fx, pos: V2, mass: Fx, others: Seq<(V2, Fx)>) -> i64
    decreases others.len(),
{
    if others.len() == 0 {
        0
    } else {
        fx_add(
            force_y(g, pos, mass, others.drop_last()),
            pair_force_y(g, pos, mass, others.last().0, others.last().1),
        )
    }
}

/// The (position, mass) snapshot a step works from.
pub open spec fn snapshot_of(objs: Seq<CelestialObject>) -> Seq<(V2, Fx)> {
    objs.map_values(|o: CelestialObject| (o.position, o.mass))
}

/// Two objects in the same place exert no force on each other: the
/// coincident-position singularity is masked, not resolved.
pub proof fn lemma_coincident_no_force(g: Fx, pos: V2, mass: Fx, omass: Fx)
    ensures
        pair_force_x(g, pos, mass, pos, omass) == 0,
        pair_force_y(g, pos, mass, pos, omass) == 0,
{
}

/// Accumulated forces stay in the representable range.
proof fn lemma_force_range(g: Fx, pos: V2, mass: Fx, others: Seq<(V2, Fx)>)
    ensures
        crate::fixed::FX_MIN <= force_x(g, pos, mass, others) <= crate::fixed::FX_MAX,
        crate::fixed::FX_MIN <= force_y(g, pos, mass, others) <= crate::fixed::FX_MAX,
    decreases others.len(),
{
    if others.len() > 0 {
        lemma_force_range(g, pos, mass, others.drop_last());
    }
}

/// The balancing residual of one axis: what is left of the total momentum
/// after the last body's velocity is set to `-(t / m)`, where `t` is the
/// momentum of all the other bodies and `m` the last body's mass. The
/// residual is the division's rounding error alone: at most `m / 65536`
/// raw units, under a 65536th of the mass.
proof fn lemma_balance_residual(t: i64, m: i64)
    requires
        0 < m <= 0x80000000,
        -0x80000000 <= t <= 0x80000000,
    ensures
        ({
            let v = fx_neg(fx_div(t, m)) as i64;
            0 <= fx_add(t, fx_mul(v, m)) <= m / 65536
        }),
{
    let p = t * 65536;
    vstd::arithmetic::div_mod::lemma_fundamental_div_mod(p, m as int);
    vstd::arithmetic::div_mod::lemma_mod_bound(p, m as int);
    let q = p / (m as int);
    let r = p % (m as int);
    assert(-0x800000000000 <= q <= 0x800000000000) by (nonlinear_arith)
        requires
            m * q == p - r,
            0 <= r < m,
            1 <= m,
            -0x80000000 * 65536 <= p <= 0x80000000 * 65536,
    ;
    assert(fx_div(t, m) == q);
    let v = fx_neg(fx_div(t, m)) as i64;
    assert(v == -q);
    vstd::arithmetic::div_mod::lemma_fundamental_div_mod(r, 65536);
    vstd::arithmetic::div_mod::lemma_mod_bound(r, 65536);
    let rq = r / 65536;
    assert(v * m == 65536 * (-t + rq) + (r % 65536)) by (nonlinear_arith)
        requires
            v == -q,
            m * q == p - r,
            p == t * 65536,
            r == 65536 * rq + (r % 65536),
    ;
    assert(0 <= r % 65536 < 65536);
    vstd::arithmetic::div_mod::lemma_fundamental_div_mod_converse(
        (v as int) * (m as int), 65536, -t + rq, r % 65536);
    assert((v as int) * (m as int) / 65536 == -t + rq);
    assert(0 <= rq) by {
        vstd::arithmetic::div_mod::lemma_div_pos_is_pos(r, 65536);
    }
    assert(rq <= m / 65536) by {
        vstd::arithmetic::div_mod::lemma_div_is_ordered(r, m as int, 65536);
    }
    assert(fx_mul(v, m) == -t + rq);
    assert(fx_add(t, fx_mul(v, m)) == rq);
}

/// Momentum conservation at initialization: when the last body's velocity
/// is set to cancel the momentum of all the others, the system's total
/// momentum along each axis is nonnegative and at most a 65536th of the
/// last body's mass — zero up to the rounding of one division. This holds
/// for every positive last mass and every prefix momentum inside the
/// non-saturating window.
pub proof fn lemma_momentum_balanced(objs: Seq<CelestialObject>)
    requires
        objs.len() >= 1,
        0 < objs.last().mass <= 0x80000000,
        -0x80000000 <= momentum_x(objs.drop_last()) <= 0x80000000,
        -0x80000000 <= momentum_y(objs.drop_last()) <= 0x80000000,
        objs.last().velocity == (V2 {
            x: fx_neg(fx_div(momentum_x(objs.drop_last()), objs.last().mass)),
            y: fx_neg(fx_div(momentum_y(objs.drop_last()), objs.last().mass)),
        }),
    ensures
        0 <= momentum_x(objs) <= objs.last().mass / 65536,
        0 <= momentum_y(objs) <= objs.last().mass / 65536,
{
    let tx = momentum_x(objs.drop_last());
    let ty = momentum_y(objs.drop_last());
    let m = objs.last().mass;
    lemma_balance_residual(tx, m);
    lemma_balance_residual(ty, m);
    assert(momentum_x(objs) == fx_add(tx, fx_mul(objs.last().velocity.x, m)));
    assert(momentum_y(objs) == fx_add(ty, fx_mul(objs.last().velocity.y, m)));
    assert(fx_add(tx, fx_mul(objs.last().velocity.x, m)) == fx_add(
        tx,
        fx_mul(fx_neg(fx_div(tx, m)), m),
    ));
}

/// The N-body simulator.
pub struct CelestialSketcher {
    pub objects: Vec<CelestialObject>,
    pub render_count: usize,
    pub g: Fx,
    pub foreground: Color,
    pub steps: usize,
    pub step_length: Fx,
    pub render_polygon: Option<usize>,
    pub canvas: VectorCanvas,
    pub rng: SmallRng,
}

impl CelestialSketcher {
    /// At least one object is simulated, no more objects are rendered than
    /// simulated, and every path has the same length.
    pub open spec fn wf(&self) -> bool {
        &&& self.objects@.len() >= 1
        &&& self.render_count <= self.objects@.len()
        &&& forall|i: int|
            0 <= i < self.objects@.len() ==> (#[trigger] self.objects@[i].path@.len())
                == self.objects@[0].path@.len()
    }

    /// The length every object's path currently has.
    pub open spec fn path_len(&self) -> nat {
        self.objects@[0].path@.len()
    }

    /// Creates a simulator with objects sampled from the configured
    /// ranges; the last object's velocity cancels the momentum of all the
    /// others. Rejects a configuration that renders more objects than it
    /// simulates, or simulates none at all.
    pub fn new(settings: CelestialSketcherSettings, seed: u64) -> (r: Result<
        CelestialSketcher,
        ConfigError,
    >)
        requires
            settings.ranges_wf(),
        ensures
            r is Ok <==> settings.render_count <= settings.object_count
                && settings.object_count >= 1,
            settings.render_count > settings.object_count ==> r == Err::<
                CelestialSketcher,
                ConfigError,
            >(ConfigError::RenderCountExceedsObjectCount),
            settings.render_count <= settings.object_count && settings.object_count == 0
                ==> r == Err::<CelestialSketcher, ConfigError>(ConfigError::NoObjects),
            r matches Ok(s) ==> {
                &&& s.wf()
                &&& s.objects@.len() == settings.object_count
                &&& s.path_len() == 0
                &&& s.render_count == settings.render_count
                &&& s.g == settings.g
                &&& s.foreground == settings.foreground
                &&& s.steps == settings.steps
                &&& s.step_length == settings.step_length
                &&& s.render_polygon == settings.render_polygon
                &&& s.canvas@.len() == 0
                &&& forall|i: int|
                    0 <= i < s.objects@.len() ==> sampled_wf(
                        #[trigger] s.objects@[i],
                        settings,
                    )
                &&& forall|i: int|
                    0 <= i < s.objects@.len() - 1 ==> velocity_sampled(
                        #[trigger] s.objects@[i],
                        settings,
                    )
                &&& s.objects@.last().velocity == V2 {
                    x: fx_neg(fx_div(momentum_x(s.objects@.drop_last()), s.objects@.last().mass)),
                    y: fx_neg(fx_div(momentum_y(s.objects@.drop_last()), s.objects@.last().mass)),
                }
            },
    {
        if settings.render_count > settings.object_count {
            return Err(ConfigError::RenderCountExceedsObjectCount);
        }
        if settings.object_count == 0 {
            return Err(ConfigError::NoObjects);
        }
        let mut rng: SmallRng = rng_from_seed(seed);
        let n: usize = settings.object_count;
        let mut objects: Vec<CelestialObject> = Vec::new();
        let mut tx: Fx = 0;
        let mut ty: Fx = 0;
        while objects.len() + 1 < n
            invariant
                settings.ranges_wf(),
                objects@.len() < n,
                tx == momentum_x(objects@),
                ty == momentum_y(objects@),
                forall|i: int|
                    0 <= i < objects@.len() ==> sampled_wf(#[trigger] objects@[i], settings),
                forall|i: int|
                    0 <= i < objects@.len() ==> velocity_sampled(
                        #[trigger] objects@[i],
                        settings,
                    ),
                forall|i: int|
                    0 <= i < objects@.len() ==> (#[trigger] objects@[i].path@.len()) == 0,
            decreases n - objects@.len(),
        {
            let position = V2 {
                x: rng_between(&mut rng, settings.object_position_min, settings.object_position_max),
                y: rng_between(&mut rng, settings.object_position_min, settings.object_position_max),
            };
            let mass: Fx = rng_between(&mut rng, settings.object_size_min, settings.object_size_max);
            let velocity = V2 {
                x: rng_between(&mut rng, settings.object_velocity_min, settings.object_velocity_max),
                y: rng_between(&mut rng, settings.object_velocity_min, settings.object_velocity_max),
            };
            tx = fx_add(tx, fx_mul(velocity.x, mass));
            ty = fx_add(ty, fx_mul(velocity.y, mass));
            let path: Vec<V2> = Vec::new();
            let ghost prev = objects@;
            objects.push(CelestialObject { position, velocity, mass, path });
            proof {
                assert(objects@.drop_last() =~= prev);
            }
        }
        // The last object balances the momentum of all the others.
        let position = V2 {
            x: rng_between(&mut rng, settings.object_position_min, settings.object_position_max),
            y: rng_between(&mut rng, settings.object_position_min, settings.object_position_max),
        };
        let mass: Fx = rng_between(&mut rng, settings.object_size_min, settings.object_size_max);
        let velocity = V2 { x: fx_neg(fx_div(tx, mass)), y: fx_neg(fx_div(ty, mass)) };
        let path: Vec<V2> = Vec::new();
        let ghost prev = objects@;
        objects.push(CelestialObject { position, velocity, mass, path });
        proof {
            assert(objects@.drop_last() =~= prev);
        }
        Ok(
            CelestialSketcher {
                objects,
                render_count: settings.render_count,
                g: settings.g,
                foreground: settings.foreground,
                steps: settings.steps,
                step_length: settings.step_length,
                render_polygon: settings.render_polygon,
                canvas: VectorCanvas::new(),
                rng,
            },
        )
    }
}

/// How one simulation step changes a single object, given the snapshot of
/// all (position, mass) pairs before the step: the pre-step position joins
/// the path, then velocity and position integrate explicitly.
pub open spec fn stepped(
    o: CelestialObject,
    o2: CelestialObject,
    g: Fx,
    dt: Fx,
    prev: Seq<(V2, Fx)>,
) -> bool {
    let fx0 = force_x(g, o.position, o.mass, prev);
    let fy0 = force_y(g, o.position, o.mass, prev);
    let v2 = V2 {
        x: fx_add(o.velocity.x, fx_mul(fx0, dt)),
        y: fx_add(o.velocity.y, fx_mul(fy0, dt)),
    };
    &&& o2.mass == o.mass
    &&& o2.path@ == o.path@.push(o.position)
    &&& o2.velocity == v2
    &&& o2.position == V2 {
        x: fx_add(o.position.x, fx_mul(v2.x, dt)),
        y: fx_add(o.position.y, fx_mul(v2.y, dt)),
    }
}

/// The visual radius of a mass: the radius of the circle of equal area,
/// scaled down to camera space.
pub open spec fn visual_radius(mass: Fx) -> i64 {
    fx_div(fx_sqrt(fx_div(mass, FX_PI)), 327680000)
}

/// Whether a shape is the rendered polyline of an object's path.
pub open spec fn path_line_shape(sh: Shape, o: CelestialObject, fg: Color) -> bool {
    match sh {
        Shape::Line(l) => l.points@ == o.path@ && l.stroke == Stroke {
            color: fg,
            width: fx_mul(visual_radius(o.mass), 131072),
            line_end: crate::shape::LineEnd::Round,
        },
        _ => false,
    }
}

/// Whether a shape is the rendered dot of one path sample of an object.
pub open spec fn path_dot_shape(sh: Shape, o: CelestialObject, p: V2, sides: usize, fg: Color) -> bool {
    sh == Shape::RegularPolygon(
        RegularPolygon {
            center: p,
            sides,
            rotation: 0,
            radius: visual_radius(o.mass),
            fill: Some(fg),
            stroke: None,
        },
    )
}

impl CelestialSketcher {
    /// Advances the simulation one step: every object's pre-step position
    /// joins its path, then pairwise forces integrate its velocity and
    /// position. All forces are computed from the same pre-step snapshot.
    pub fn step(&mut self)
        requires
            old(self).wf(),
        ensures
            final(self).wf(),
            final(self).objects@.len() == old(self).objects@.len(),
            final(self).path_len() == old(self).path_len() + 1,
            final(self).render_count == old(self).render_count,
            final(self).g == old(self).g,
            final(self).foreground == old(self).foreground,
            final(self).steps == old(self).steps,
            final(self).step_length == old(self).step_length,
            final(self).render_polygon == old(self).render_polygon,
            final(self).canvas == old(self).canvas,
            final(self).rng == old(self).rng,
            forall|i: int|
                0 <= i < old(self).objects@.len() ==> stepped(
                    old(self).objects@[i],
                    #[trigger] final(self).objects@[i],
                    old(self).g,
                    old(self).step_length,
                    snapshot_of(old(self).objects@),
                ),
    {
        let ghost orig = self.objects@;
        let n: usize = self.objects.len();
        let mut prev: Vec<(V2, Fx)> = Vec::new();
        let mut j: usize = 0;
        while j < n
            invariant
                j <= n,
                n == self.objects@.len(),
                self.objects@ == orig,
                prev@ == snapshot_of(orig).take(j as int),
            decreases n - j,
        {
            prev.push((self.objects[j].position, self.objects[j].mass));
            proof {
                assert(prev@ =~= snapshot_of(orig).take(j as int + 1));
            }
            j = j + 1;
        }
        proof {
            assert(snapshot_of(orig).take(n as int) =~= snapshot_of(orig));
        }
        let mut i: usize = 0;
        while i < n
            invariant
                i <= n,
                n == old(self).objects@.len(),
                self.objects@.len() == n,
                orig == old(self).objects@,
                prev@ == snapshot_of(orig),
                self.render_count == old(self).render_count,
                self.g == old(self).g,
                self.foreground == old(self).foreground,
                self.steps == old(self).steps,
                self.step_length == old(self).step_length,
                self.render_polygon == old(self).render_polygon,
                self.canvas == old(self).canvas,
                self.rng == old(self).rng,
                forall|k: int| i <= k < n ==> #[trigger] self.objects@[k] == orig[k],
                forall|k: int|
                    0 <= k < i ==> stepped(
                        orig[k],
                        #[trigger] self.objects@[k],
                        old(self).g,
                        old(self).step_length,
                        snapshot_of(orig),
                    ),
            decreases n - i,
        {
            let o_pos: V2 = self.objects[i].position;
            let o_mass: Fx = self.objects[i].mass;
            let g: Fx = self.g;
            let dt: Fx = self.step_length;
            let mut facc_x: Fx = 0;
            let mut facc_y: Fx = 0;
            let mut j2: usize = 0;
            while j2 < n
                invariant
                    j2 <= n,
                    n == prev@.len(),
                    facc_x == force_x(g, o_pos, o_mass, prev@.take(j2 as int)),
                    facc_y == force_y(g, o_pos, o_mass, prev@.take(j2 as int)),
                decreases n - j2,
            {
                let pm: (V2, Fx) = prev[j2];
                proof {
                    assert(prev@.take(j2 as int + 1).drop_last() =~= prev@.take(j2 as int));
                    assert(prev@.take(j2 as int + 1).last() == prev@[j2 as int]);
                    lemma_force_range(g, o_pos, o_mass, prev@.take(j2 as int));
                }
                if !(pm.0 == o_pos) {
                    let d: Fx = o_pos.distance(pm.0);
                    let s: Fx = fx_div(fx_mul(fx_mul(g, o_mass), pm.1), d);
                    facc_x = fx_add(facc_x, fx_mul(s, fx_sub(pm.0.x, o_pos.x)));
                    facc_y = fx_add(facc_y, fx_mul(s, fx_sub(pm.0.y, o_pos.y)));
                }
                j2 = j2 + 1;
            }
            proof {
                assert(prev@.take(n as int) =~= prev@);
            }
            let new_vel = V2 {
                x: fx_add(self.objects[i].velocity.x, fx_mul(facc_x, dt)),
                y: fx_add(self.objects[i].velocity.y, fx_mul(facc_y, dt)),
            };
            let new_pos = V2 {
                x: fx_add(o_pos.x, fx_mul(new_vel.x, dt)),
                y: fx_add(o_pos.y, fx_mul(new_vel.y, dt)),
            };
            self.objects[i].path.push(o_pos);
            self.objects[i].velocity = new_vel;
            self.objects[i].position = new_pos;
            i = i + 1;
        }
        proof {
            assert(final(self).path_len() == old(self).path_len() + 1);
        }
    }

    /// Rebuilds the canvas from the recorded paths: one polyline per
    /// rendered object, or one regular polygon per path sample of each
    /// rendered object in dots mode.
    pub fn render(&mut self)
        requires
            old(self).wf(),
        ensures
            final(self).wf(),
            final(self).objects@ == old(self).objects@,
            final(self).render_count == old(self).render_count,
            final(self).g == old(self).g,
            final(self).foreground == old(self).foreground,
            final(self).steps == old(self).steps,
            final(self).step_length == old(self).step_length,
            final(self).render_polygon == old(self).render_polygon,
            final(self).rng == old(self).rng,
            match old(self).render_polygon {
                Some(sides) => {
                    &&& final(self).canvas@.len() == old(self).path_len()
                        * old(self).render_count
                    &&& forall|si: int, j: int|
                        0 <= si < old(self).path_len() && 0 <= j < old(self).render_count
                            ==> path_dot_shape(
                            #[trigger] final(self).canvas@[si * old(self).render_count + j],
                            old(self).objects@[j],
                            old(self).objects@[j].path@[si],
                            sides,
                            old(self).foreground,
                        )
                },
                None => {
                    &&& final(self).canvas@.len() == old(self).render_count
                    &&& forall|i: int|
                        0 <= i < old(self).render_count ==> path_line_shape(
                            #[trigger] final(self).canvas@[i],
                            old(self).objects@[i],
                            old(self).foreground,
                        )
                },
            },
    {
        self.canvas = VectorCanvas::new();
        match self.render_polygon {
            Some(sides) => {
                let rc: usize = self.render_count;
                let plen: usize = self.objects[0].path.len();
                let mut si: usize = 0;
                while si < plen
                    invariant
                        si <= plen,
                        self.wf(),
                        rc == self.render_count,
                        plen == self.path_len(),
                        self.objects@ == old(self).objects@,
                        self.render_count == old(self).render_count,
                        self.g == old(self).g,
                        self.foreground == old(self).foreground,
                        self.steps == old(self).steps,
                        self.step_length == old(self).step_length,
                        self.render_polygon == old(self).render_polygon,
                        self.render_polygon == Some(sides),
                        self.rng == old(self).rng,
                        self.canvas@.len() == si * rc,
                        forall|s2: int, j: int|
                            0 <= s2 < si && 0 <= j < rc ==> path_dot_shape(
                                #[trigger] self.canvas@[s2 * rc + j],
                                self.objects@[j],
                                self.objects@[j].path@[s2],
                                sides,
                                self.foreground,
                            ),
                    decreases plen - si,
                {
                    let mut j: usize = 0;
                    while j < rc
                        invariant
                            j <= rc,
                            si < plen,
                            self.wf(),
                            rc == self.render_count,
                            plen == self.path_len(),
                            self.objects@ == old(self).objects@,
                            self.render_count == old(self).render_count,
                            self.g == old(self).g,
                            self.foreground == old(self).foreground,
                            self.steps == old(self).steps,
                            self.step_length == old(self).step_length,
                            self.render_polygon == old(self).render_polygon,
                            self.render_polygon == Some(sides),
                            self.rng == old(self).rng,
                            self.canvas@.len() == si * rc + j,
                            forall|s2: int, j2: int|
                                0 <= s2 < si && 0 <= j2 < rc ==> path_dot_shape(
                                    #[trigger] self.canvas@[s2 * rc + j2],
                                    self.objects@[j2],
                                    self.objects@[j2].path@[s2],
                                    sides,
                                    self.foreground,
                                ),
                            forall|j2: int|
                                0 <= j2 < j ==> path_dot_shape(
                                    #[trigger] self.canvas@[si * rc + j2],
                                    self.objects@[j2],
                                    self.objects@[j2].path@[si as int],
                                    sides,
                                    self.foreground,
                                ),
                        decreases rc - j,
                    {
                        let position: V2 = self.objects[j].path[si];
                        let radius: Fx = fx_div(
                            fx_sqrt(fx_div(self.objects[j].mass, FX_PI)),
                            327680000,
                        );
                        self.canvas.draw_regular_polygon(
                            position,
                            sides,
                            radius,
                            0,
                            None,
                            Some(self.foreground),
                        );
                        proof {
                            lemma_grid_index(si as int, j as int, rc as int, plen as int);
                            assert forall|s2: int, j2: int|
                                0 <= s2 < si && 0 <= j2 < rc implies path_dot_shape(
                                #[trigger] self.canvas@[s2 * rc + j2],
                                self.objects@[j2],
                                self.objects@[j2].path@[s2],
                                sides,
                                self.foreground,
                            ) by {
                                assert(0 <= s2 * rc + j2 < si as int * rc as int)
                                    by (nonlinear_arith)
                                    requires
                                        0 <= s2 < si as int,
                                        0 <= j2 < rc as int,
                                ;
                            }
                        }
                        j = j + 1;
                    }
                    proof {
                        assert((si as int + 1) * (rc as int) == si as int * rc as int + rc as int)
                            by (nonlinear_arith);
                    }
                    si = si + 1;
                }
                proof {
                    assert(final(self).canvas@.len() == old(self).path_len()
                        * old(self).render_count);
                }
            },
            None => {
                let rc: usize = self.render_count;
                let mut i: usize = 0;
                while i < rc
                    invariant
                        i <= rc,
                        rc == self.render_count,
                        self.wf(),
                        self.objects@ == old(self).objects@,
                        self.render_count == old(self).render_count,
                        self.g == old(self).g,
                        self.foreground == old(self).foreground,
                        self.steps == old(self).steps,
                        self.step_length == old(self).step_length,
                        self.render_polygon == old(self).render_polygon,
                        self.render_polygon is None,
                        self.rng == old(self).rng,
                        self.canvas@.len() == i,
                        forall|k: int|
                            0 <= k < i ==> path_line_shape(
                                #[trigger] self.canvas@[k],
                                self.objects@[k],
                                self.foreground,
                            ),
                    decreases rc - i,
                {
                    let radius: Fx = fx_div(
                        fx_sqrt(fx_div(self.objects[i].mass, FX_PI)),
                        327680000,
                    );
                    let points: Vec<V2> = copy_points(&self.objects[i].path);
                    self.canvas.draw_shape(
                        points,
                        Stroke {
                            color: self.foreground,
                            width: fx_mul(radius, 131072),
                            line_end: crate::shape::LineEnd::Round,
                        },
                    );
                    i = i + 1;
                }
            },
        }
    }

    /// Runs the whole simulation, then renders it.
    pub fn run(&mut self)
        requires
            old(self).wf(),
        ensures
            final(self).wf(),
            final(self).objects@.len() == old(self).objects@.len(),
            final(self).path_len() == old(self).path_len() + old(self).steps,
            final(self).canvas@.len() == (match old(self).render_polygon {
                Some(_) => (old(self).path_len() + old(self).steps) * old(self).render_count,
                None => old(self).render_count as int,
            }),
            forall|i: int|
                old(self).render_polygon is None && 0 <= i < old(self).render_count
                    ==> path_line_shape(
                    #[trigger] final(self).canvas@[i],
                    final(self).objects@[i],
                    old(self).foreground,
                ),
            forall|si: int, j: int|
                old(self).render_polygon matches Some(sides) ==> (0 <= si < old(self).path_len()
                    + old(self).steps && 0 <= j < old(self).render_count ==> path_dot_shape(
                    #[trigger] final(self).canvas@[si * old(self).render_count + j],
                    final(self).objects@[j],
                    final(self).objects@[j].path@[si],
                    sides,
                    old(self).foreground,
                )),
    {
        let total: usize = self.steps;
        let mut k: usize = 0;
        while k < total
            invariant
                k <= total,
                total == self.steps,
                self.wf(),
                self.objects@.len() == old(self).objects@.len(),
                self.path_len() == old(self).path_len() + k,
                self.render_count == old(self).render_count,
                self.g == old(self).g,
                self.foreground == old(self).foreground,
                self.steps == old(self).steps,
                self.step_length == old(self).step_length,
                self.render_polygon == old(self).render_polygon,
            decreases total - k,
        {
            self.step();
            k = k + 1;
        }
        self.render();
    }
}

/// A fresh vector holding the same points.
fn copy_points(v: &Vec<V2>) -> (r: Vec<V2>)
    ensures
        r@ == v@,
{
    let mut out: Vec<V2> = Vec::new();
    let mut i: usize = 0;
    while i < v.len()
        invariant
            i <= v@.len(),
            out@ == v@.take(i as int),
        decreases v@.len() - i,
    {
        out.push(v[i]);
        proof {
            assert(out@ =~= v@.take(i as int + 1));
        }
        i = i + 1;
    }
    proof {
        assert(v@.take(v@.len() as int) =~= v@);
    }
    out
}

/// A dot's slot in the canvas stays inside the grid of slots.
proof fn lemma_grid_index(si: int, j: int, n: int, plen: int)
    requires
        0 <= si < plen,
        0 <= j < n,
    ensures
        0 <= si * n + j,
        si * n + j < plen * n,
        si * n + (j + 1) == si * n + j + 1,
        (si + 1) * n == si * n + n,
{
    assert(0 <= si * n + j && si * n + j < plen * n && (si + 1) * n == si * n + n)
        by (nonlinear_arith)
        requires
            0 <= si < plen,
            0 <= j < n,
    ;
}

/// A freshly sampled object respects the configured position and mass
/// ranges and starts with an empty path.
pub open spec fn sampled_wf(o: CelestialObject, s: CelestialSketcherSettings) -> bool {
    &&& s.object_position_min <= o.position.x <= s.object_position_max
    &&& s.object_position_min <= o.position.y <= s.object_position_max
    &&& s.object_size_min <= o.mass <= s.object_size_max
    &&& o.path@.len() == 0
}

/// A non-balancing object's velocity respects the configured range.
pub open spec fn velocity_sampled(o: CelestialObject, s: CelestialSketcherSettings) -> bool {
    &&& s.object_velocity_min <= o.velocity.x <= s.object_velocity_max
    &&& s.object_velocity_min <= o.velocity.y <= s.object_velocity_max
}

} // verus!
