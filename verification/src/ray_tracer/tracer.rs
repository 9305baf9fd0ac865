//! The tracing engine: ray-sphere intersection, nearest-hit resolution,
//! lighting with shadows and highlights, recursive reflection, and the loop
//! that fills a canvas.

use vstd::prelude::*;
use core::ops::Neg;
use crate::canvas::Canvas;
use crate::ray_tracer::color::Color;
use crate::ray_tracer::scalar::Scalar;
use crate::ray_tracer::tuple::Tuple;

verus! {

/// The offset at which shadow and reflection rays start, 0.001, so that a ray
/// does not hit the surface it leaves.
pub open spec fn spec_surface_offset() -> Scalar {
    Scalar { bits: 0x3F50_624D_D2F1_A9FC }
}

/// The specular exponent that switches the highlight off, -1.
pub open spec fn spec_no_highlight() -> Scalar {
    Scalar { bits: 0xBFF0_0000_0000_0000 }
}

#[verifier::when_used_as_spec(spec_surface_offset)]
pub fn surface_offset() -> (r: Scalar)
    ensures
        r == spec_surface_offset(),
{
    Scalar::from_bits(0x3F50_624D_D2F1_A9FC)
}

#[verifier::when_used_as_spec(spec_no_highlight)]
pub fn no_highlight() -> (r: Scalar)
    ensures
        r == spec_no_highlight(),
{
    Scalar::from_bits(0xBFF0_0000_0000_0000)
}

#[derive(Clone, Copy, Debug)]
pub enum Light {
    /// Light from everywhere, of the given intensity.
    Ambient(Scalar),
    /// Light of the given intensity from a position.
    Point(Scalar, Tuple),
    /// Light of the given intensity from a direction, given towards its source.
    Directional(Scalar, Tuple),
}

/// The image plane, one unit in front of the eye.
#[derive(Debug, Clone, Copy)]
pub struct Viewport {
    pub width: Scalar,
    pub height: Scalar,
}

#[derive(Debug, Clone, Copy)]
pub struct Sphere {
    pub radius: Scalar,
    pub center: Tuple,
    pub color: Color,
    pub specular: Scalar,
    pub reflective: Scalar,
}

/// The mirror image of `r` about the normal `n`: `2 n (n . r) - r`.
pub open spec fn spec_reflect_ray(r: &Tuple, n: &Tuple) -> Tuple {
    n.scaled(Scalar::two()).scaled(n.dot(r)).minus(*r)
}

#[verifier::when_used_as_spec(spec_reflect_ray)]
pub fn reflect_ray(r: &Tuple, n: &Tuple) -> (reflected: Tuple)
    ensures
        reflected == spec_reflect_ray(r, n),
{
    ((n * Scalar::two()) * n.dot(r)) - r
}

impl Viewport {
    /// The direction from the eye through the pixel `(x, y)` of the canvas:
    /// `(x * width / canvas width, -y * height / canvas height, 1)`.
    pub open spec fn spec_canvas_to_viewport(&self, canvas: &Canvas, x: i32, y: i32) -> Tuple {
        Tuple::vector(
            Scalar::from_i32(x).mul(self.width).div(Scalar::from_i32(canvas.width)),
            Scalar::from_i32((-y) as i32).mul(self.height).div(Scalar::from_i32(canvas.height)),
            Scalar::one(),
        )
    }

    /// Maps a pixel to the direction of its ray. The vertical axis is turned
    /// over, as rows count downwards and the viewport's up axis upwards.
    #[verifier::when_used_as_spec(spec_canvas_to_viewport)]
    pub fn canvas_to_viewport(&self, canvas: &Canvas, x: i32, y: i32) -> (direction: Tuple)
        requires
            y > i32::MIN,
        ensures
            direction == self.spec_canvas_to_viewport(canvas, x, y),
    {
        Tuple::vector(
            Scalar::from_i32(x).mul(self.width).div(Scalar::from_i32(canvas.width)),
            Scalar::from_i32(-y).mul(self.height).div(Scalar::from_i32(canvas.height)),
            Scalar::one(),
        )
    }
}

impl Sphere {
    /// The discriminant `b^2 - 4ac` of the quadratic `a t^2 + b t + c = 0`
    /// whose roots are the distances at which the ray meets the sphere.
    pub open spec fn discriminant(&self, origin: &Tuple, direction: &Tuple) -> Scalar {
        let co = origin.minus(self.center);
        let a = direction.dot(direction);
        let b = Scalar::two().mul(co.dot(direction));
        let c = co.dot(&co).sub(self.radius.mul(self.radius));
        b.mul(b).sub(Scalar::four().mul(a).mul(c))
    }

    /// Both roots, unordered: `(-b + sqrt(d)) / 2a` and `(-b - sqrt(d)) / 2a`;
    /// where the discriminant is negative, the largest finite number for both.
    pub open spec fn spec_intersect(&self, origin: &Tuple, direction: &Tuple) -> (Scalar, Scalar) {
        let co = origin.minus(self.center);
        let a = direction.dot(direction);
        let b = Scalar::two().mul(co.dot(direction));
        let d = self.discriminant(origin, direction);
        if d.lt(Scalar::zero()) {
            (Scalar::max(), Scalar::max())
        } else {
            (
                b.neg().add(d.sqrt()).div(Scalar::two().mul(a)),
                b.neg().sub(d.sqrt()).div(Scalar::two().mul(a)),
            )
        }
    }

    /// Solves for the distances along the ray at which it meets the sphere.
    /// The direction need not have unit length. A direction of length zero is
    /// not treated specially: the division by zero yields what IEEE 754 says.
    #[verifier::when_used_as_spec(spec_intersect)]
    pub fn intersect(&self, origin: &Tuple, direction: &Tuple) -> (roots: (Scalar, Scalar))
        ensures
            roots == self.spec_intersect(origin, direction),
            self.discriminant(origin, direction).lt(Scalar::zero()) ==> roots == (
                Scalar::max(),
                Scalar::max(),
            ),
    {
        let r = self.radius;
        let co = origin - &self.center;

        let a = direction.dot(direction);
        let b = Scalar::two().mul(co.dot(direction));
        let c = co.dot(&co).sub(r.mul(r));

        let discriminant = b.mul(b).sub(Scalar::four().mul(a).mul(c));
        if discriminant.lt(Scalar::zero()) {
            (Scalar::max(), Scalar::max())
        } else {
            let t1 = b.neg().add(discriminant.sqrt()).div(Scalar::two().mul(a));
            let t2 = b.neg().sub(discriminant.sqrt()).div(Scalar::two().mul(a));
            (t1, t2)
        }
    }
}

/// Spheres and lights, both in a fixed order.
#[derive(Debug, Clone)]
pub struct Scene {
    pub spheres: Vec<Sphere>,
    pub lights: Vec<Light>,
}

/// What a scene holds, as sequences.
pub struct SceneView {
    pub spheres: Seq<Sphere>,
    pub lights: Seq<Light>,
}

impl View for Scene {
    type V = SceneView;

    open spec fn view(&self) -> SceneView {
        SceneView { spheres: self.spheres@, lights: self.lights@ }
    }
}

/// The nearest hit that a scan of spheres has found: the sphere's place in
/// the scene, if any, and the distance, which starts at the largest finite
/// number.
pub struct Nearest {
    pub index: Option<int>,
    pub t: Scalar,
}

/// Whether `t` lies in the closed interval from `t_min` to `t_max`.
pub open spec fn within(t: Scalar, t_min: Scalar, t_max: Scalar) -> bool {
    t_min.le(t) && t.le(t_max)
}

/// Whether a root counts as a hit at all: it lies in the interval and below
/// the largest finite number, at which every scan starts.
pub open spec fn reachable(t: Scalar, t_min: Scalar, t_max: Scalar) -> bool {
    within(t, t_min, t_max) && t.lt(Scalar::max())
}

/// The scan's state after it has looked at the root `t` of sphere `i`: the
/// root replaces what was found only if it lies in the interval and is
/// strictly nearer.
pub open spec fn improve(
    best: Nearest,
    i: int,
    t: Scalar,
    t_min: Scalar,
    t_max: Scalar,
) -> Nearest {
    if within(t, t_min, t_max) && t.lt(best.t) {
        Nearest { index: Some(i), t }
    } else {
        best
    }
}

impl SceneView {
    /// The two roots of sphere `j` along the ray.
    pub open spec fn roots(self, j: int, origin: Tuple, direction: Tuple) -> (Scalar, Scalar) {
        self.spheres[j].spec_intersect(&origin, &direction)
    }

    /// Whether the ray meets sphere `j` within the interval.
    pub open spec fn meets(
        self,
        j: int,
        origin: Tuple,
        direction: Tuple,
        t_min: Scalar,
        t_max: Scalar,
    ) -> bool {
        let (t1, t2) = self.roots(j, origin, direction);
        reachable(t1, t_min, t_max) || reachable(t2, t_min, t_max)
    }

    /// The nearest hit among the first `n` spheres, found by looking at the
    /// spheres in order and at the first root of each before its second.
    pub open spec fn scan(
        self,
        origin: Tuple,
        direction: Tuple,
        t_min: Scalar,
        t_max: Scalar,
        n: nat,
    ) -> Nearest
        decreases n,
    {
        if n == 0 {
            Nearest { index: None, t: Scalar::max() }
        } else {
            let before = self.scan(origin, direction, t_min, t_max, (n - 1) as nat);
            let (t1, t2) = self.roots(n - 1, origin, direction);
            improve(improve(before, n - 1, t1, t_min, t_max), n - 1, t2, t_min, t_max)
        }
    }

    /// The nearest hit of the ray within the interval: the place of the sphere
    /// in the scene and the distance, or nothing.
    pub open spec fn closest_hit(
        self,
        origin: Tuple,
        direction: Tuple,
        t_min: Scalar,
        t_max: Scalar,
    ) -> Option<(int, Scalar)> {
        let found = self.scan(origin, direction, t_min, t_max, self.spheres.len());
        match found.index {
            Some(i) => Some((i, found.t)),
            None => None,
        }
    }

    /// What it means for the root `t` of sphere `i` to be the nearest hit
    /// among the first `n` spheres: it counts as a hit, no root that counts is
    /// nearer, every such root of an earlier sphere is strictly farther, and
    /// within the sphere the first root wins a tie.
    pub open spec fn is_nearest(
        self,
        origin: Tuple,
        direction: Tuple,
        t_min: Scalar,
        t_max: Scalar,
        n: nat,
        i: int,
        t: Scalar,
    ) -> bool {
        &&& 0 <= i < n
        &&& reachable(t, t_min, t_max)
        &&& t == self.roots(i, origin, direction).0 || t == self.roots(i, origin, direction).1
        &&& t != self.roots(i, origin, direction).0 ==> !(reachable(
            self.roots(i, origin, direction).0,
            t_min,
            t_max,
        ) && self.roots(i, origin, direction).0.le(t))
        &&& forall|j: int|
            0 <= j < n && reachable(#[trigger] self.roots(j, origin, direction).0, t_min, t_max)
                ==> t.le(self.roots(j, origin, direction).0)
        &&& forall|j: int|
            0 <= j < n && reachable(#[trigger] self.roots(j, origin, direction).1, t_min, t_max)
                ==> t.le(self.roots(j, origin, direction).1)
        &&& forall|j: int|
            0 <= j < i && reachable(#[trigger] self.roots(j, origin, direction).0, t_min, t_max)
                ==> t.lt(self.roots(j, origin, direction).0)
        &&& forall|j: int|
            0 <= j < i && reachable(#[trigger] self.roots(j, origin, direction).1, t_min, t_max)
                ==> t.lt(self.roots(j, origin, direction).1)
    }

    /// A scan finds nothing exactly when no sphere is met, and what it finds
    /// is the nearest hit, of the first sphere that has it.
    pub proof fn lemma_scan_finds_nearest(
        self,
        origin: Tuple,
        direction: Tuple,
        t_min: Scalar,
        t_max: Scalar,
        n: nat,
    )
        requires
            n <= self.spheres.len(),
        ensures
            match self.scan(origin, direction, t_min, t_max, n).index {
                Some(i) => self.is_nearest(
                    origin,
                    direction,
                    t_min,
                    t_max,
                    n,
                    i,
                    self.scan(origin, direction, t_min, t_max, n).t,
                ),
                None => {
                    &&& self.scan(origin, direction, t_min, t_max, n).t == Scalar::max()
                    &&& forall|j: int|
                        0 <= j < n ==> !#[trigger] self.meets(j, origin, direction, t_min, t_max)
                },
            },
        decreases n,
    {
        if n > 0 {
            self.lemma_scan_finds_nearest(origin, direction, t_min, t_max, (n - 1) as nat);
            let before = self.scan(origin, direction, t_min, t_max, (n - 1) as nat);
            let (t1, t2) = self.roots(n - 1, origin, direction);
            let mid = improve(before, n - 1, t1, t_min, t_max);
            let after = improve(mid, n - 1, t2, t_min, t_max);
            assert(after == self.scan(origin, direction, t_min, t_max, n));
            match before.index {
                Some(k) => {
                    assert(self.is_nearest(
                        origin,
                        direction,
                        t_min,
                        t_max,
                        (n - 1) as nat,
                        k,
                        before.t,
                    ));
                },
                None => {
                    assert forall|j: int| 0 <= j < n - 1 implies !reachable(
                        #[trigger] self.roots(j, origin, direction).0,
                        t_min,
                        t_max,
                    ) by {
                        assert(!self.meets(j, origin, direction, t_min, t_max));
                    }
                    assert forall|j: int| 0 <= j < n - 1 implies !reachable(
                        #[trigger] self.roots(j, origin, direction).1,
                        t_min,
                        t_max,
                    ) by {
                        assert(!self.meets(j, origin, direction, t_min, t_max));
                    }
                },
            }
            match after.index {
                Some(i) => {
                    assert(self.is_nearest(origin, direction, t_min, t_max, n, i, after.t));
                },
                None => {
                    assert forall|j: int| 0 <= j < n implies !#[trigger] self.meets(
                        j,
                        origin,
                        direction,
                        t_min,
                        t_max,
                    ) by {
                        if j == n - 1 {
                        }
                    }
                },
            }
        }
    }
}

/// A power function as the tracer's contracts speak of it: from a base and an
/// exponent to a result.
pub type Power = spec_fn(Scalar, Scalar) -> Scalar;

/// The function that `pow` computes: for each base and exponent, the result
/// that a call of `pow` gives.
pub open spec fn power_of<P: Fn(Scalar, Scalar) -> Scalar>(pow: &P) -> Power {
    |base: Scalar, exponent: Scalar| choose|r: Scalar| call_ensures(*pow, (base, exponent), r)
}

/// Whether `pow` is a pure function: it may be called on every base and
/// exponent and gives one result for each pair. The tracer takes its
/// exponentiation from the caller and asks no more of it than this.
pub open spec fn is_pure<P: Fn(Scalar, Scalar) -> Scalar>(pow: &P) -> bool {
    &&& forall|b: Scalar, e: Scalar| call_requires(*pow, (b, e))
    &&& forall|b: Scalar, e: Scalar, r: Scalar|
        call_ensures(*pow, (b, e), r) ==> r == power_of(pow)(b, e)
}

impl SceneView {
    /// Whether something stands between the point `p` and a light towards
    /// `l`: the shadow ray from `p` meets a sphere between the surface offset
    /// and `t_max`.
    pub open spec fn occluded(self, p: Tuple, l: Tuple, t_max: Scalar) -> bool {
        self.closest_hit(p, l, surface_offset(), t_max) is Some
    }

    /// The diffuse term of a light towards `l` on a surface of normal `n`:
    /// `intensity * (n . l) / (|n| |l|)` where the surface faces the light,
    /// and zero where it faces away.
    pub open spec fn diffuse(n: Tuple, l: Tuple, intensity: Scalar) -> Scalar {
        let n_dot_l = n.dot(&l);
        if Scalar::zero().lt(n_dot_l) {
            intensity.mul(n_dot_l).div(n.magnitude().mul(l.magnitude()))
        } else {
            Scalar::zero()
        }
    }

    /// The specular term seen from direction `v`: with `r` the mirror image of
    /// `l` about `n`, `intensity * ((r . v) / (|r| |v|)) ^ s` where `r . v` is
    /// positive, and nothing otherwise or where `s` switches the highlight
    /// off. `None` stands for no term, which is not the same as adding zero.
    pub open spec fn highlight(
        n: Tuple,
        l: Tuple,
        intensity: Scalar,
        v: Tuple,
        s: Scalar,
        pow: Power,
    ) -> Option<Scalar> {
        let r = reflect_ray(&l, &n);
        let r_dot_v = r.dot(&v);
        if !s.same(no_highlight()) && Scalar::zero().lt(r_dot_v) {
            Some(intensity.mul(pow(r_dot_v.div(r.magnitude().mul(v.magnitude())), s)))
        } else {
            None
        }
    }

    /// What one light towards `l` adds at the point `p`: zero in shadow,
    /// else the diffuse term and, where there is one, the highlight.
    pub open spec fn spec_calc_light(
        self,
        p: Tuple,
        n: Tuple,
        l: Tuple,
        intensity: Scalar,
        v: Tuple,
        s: Scalar,
        t_max: Scalar,
        pow: Power,
    ) -> Scalar {
        if self.occluded(p, l, t_max) {
            Scalar::zero()
        } else {
            let lit = Scalar::zero().add(Self::diffuse(n, l, intensity));
            match Self::highlight(n, l, intensity, v, s, pow) {
                Some(h) => lit.add(h),
                None => lit,
            }
        }
    }

    /// What the light `light` adds at the point `p`. An ambient light adds its
    /// intensity. A point light shines along `position - p` and its shadow
    /// ray ends at distance one; a directional light shines along its
    /// direction and its shadow ray ends at the largest finite number.
    pub open spec fn contribution(
        self,
        light: Light,
        p: Tuple,
        n: Tuple,
        v: Tuple,
        s: Scalar,
        pow: Power,
    ) -> Scalar {
        match light {
            Light::Ambient(intensity) => intensity,
            Light::Point(intensity, position) => self.spec_calc_light(
                p,
                n,
                position.minus(p),
                intensity,
                v,
                s,
                Scalar::one(),
                pow,
            ),
            Light::Directional(intensity, direction) => self.spec_calc_light(
                p,
                n,
                direction,
                intensity,
                v,
                s,
                Scalar::max(),
                pow,
            ),
        }
    }

    /// The sum of what the first `k` lights add, starting from zero and
    /// adding light after light in their order.
    pub open spec fn lighting_of(
        self,
        p: Tuple,
        n: Tuple,
        v: Tuple,
        s: Scalar,
        pow: Power,
        k: nat,
    ) -> Scalar
        decreases k,
    {
        if k == 0 {
            Scalar::zero()
        } else {
            self.lighting_of(p, n, v, s, pow, (k - 1) as nat).add(
                self.contribution(self.lights[k - 1], p, n, v, s, pow),
            )
        }
    }

    /// The total illumination at `p`, unclamped.
    pub open spec fn spec_compute_lighting(
        self,
        p: Tuple,
        n: Tuple,
        v: Tuple,
        s: Scalar,
        pow: Power,
    ) -> Scalar {
        self.lighting_of(p, n, v, s, pow, self.lights.len())
    }

    /// The point at distance `t` along the ray.
    pub open spec fn hit_point(origin: Tuple, direction: Tuple, t: Scalar) -> Tuple {
        origin.plus(direction.scaled(t))
    }

    /// The unit normal of sphere `i` at the point `p` of its surface.
    pub open spec fn normal_at(self, i: int, p: Tuple) -> Tuple {
        let n = p.minus(self.spheres[i].center);
        n.divided(n.magnitude())
    }

    /// The color of sphere `i` where the ray meets it at distance `t`, by
    /// local shading alone: the sphere's color times the illumination there.
    pub open spec fn local_color(
        self,
        i: int,
        origin: Tuple,
        direction: Tuple,
        t: Scalar,
        pow: Power,
    ) -> Color {
        let p = Self::hit_point(origin, direction, t);
        let n = self.normal_at(i, p);
        self.spheres[i].color.scaled(
            self.spec_compute_lighting(p, n, direction.negated(), self.spheres[i].specular, pow),
        )
    }

    /// The color that the ray returns with `depth` reflections allowed.
    pub open spec fn spec_trace_ray(
        self,
        origin: Tuple,
        direction: Tuple,
        t_min: Scalar,
        t_max: Scalar,
        depth: nat,
        pow: Power,
    ) -> Color
        decreases depth,
    {
        match self.closest_hit(origin, direction, t_min, t_max) {
            None => Color::black(),
            Some((i, t)) => {
                let local = self.local_color(i, origin, direction, t, pow);
                let r = self.spheres[i].reflective;
                if depth == 0 || r.le(Scalar::zero()) {
                    local
                } else {
                    let p = Self::hit_point(origin, direction, t);
                    let n = self.normal_at(i, p);
                    let reflected = self.spec_trace_ray(
                        p,
                        reflect_ray(&direction.negated(), &n),
                        surface_offset(),
                        Scalar::max(),
                        (depth - 1) as nat,
                        pow,
                    );
                    local.scaled(Scalar::one().sub(r)).plus(reflected.scaled(r))
                }
            },
        }
    }
}

impl Scene {
    /// Resolves the nearest sphere that the ray meets within the closed
    /// interval from `t_min` to `t_max`. Every sphere is scanned and both of
    /// its roots are tried; of equally near hits the first scanned stays.
    pub fn closest_intersection(
        &self,
        origin: &Tuple,
        direction: &Tuple,
        t_min: Scalar,
        t_max: Scalar,
    ) -> (hit: Option<(&Sphere, Scalar)>)
        ensures
            match hit {
                Some((sphere, t)) => {
                    &&& self@.closest_hit(*origin, *direction, t_min, t_max) matches Some((i, d))
                    &&& d == t
                    &&& *sphere == self.spheres@[i]
                    &&& self@.is_nearest(
                        *origin,
                        *direction,
                        t_min,
                        t_max,
                        self.spheres@.len(),
                        i,
                        t,
                    )
                },
                None => {
                    &&& self@.closest_hit(*origin, *direction, t_min, t_max) is None
                    &&& forall|j: int|
                        0 <= j < self.spheres@.len() ==> !#[trigger] self@.meets(
                            j,
                            *origin,
                            *direction,
                            t_min,
                            t_max,
                        )
                },
            },
    {
        let mut closest_t = Scalar::max();
        let mut closest_sphere: Option<&Sphere> = None;

        let mut k: usize = 0;
        while k < self.spheres.len()
            invariant
                k <= self.spheres.len(),
                closest_t == self@.scan(*origin, *direction, t_min, t_max, k as nat).t,
                match closest_sphere {
                    Some(sphere) => {
                        &&& self@.scan(
                            *origin,
                            *direction,
                            t_min,
                            t_max,
                            k as nat,
                        ).index matches Some(i)
                        &&& 0 <= i < k
                        &&& *sphere == self.spheres@[i]
                    },
                    None => self@.scan(*origin, *direction, t_min, t_max, k as nat).index is None,
                },
            decreases self.spheres.len() - k,
        {
            let sphere = &self.spheres[k];
            let (t1, t2) = sphere.intersect(origin, direction);
            if (t1.ge(t_min) && t1.le(t_max)) && t1.lt(closest_t) {
                closest_t = t1;
                closest_sphere = Some(sphere);
            }
            if (t2.ge(t_min) && t2.le(t_max)) && t2.lt(closest_t) {
                closest_t = t2;
                closest_sphere = Some(sphere);
            }
            k += 1;
        }
        proof {
            self@.lemma_scan_finds_nearest(
                *origin,
                *direction,
                t_min,
                t_max,
                self.spheres@.len(),
            );
        }

        match closest_sphere {
            Some(sphere) => Some((sphere, closest_t)),
            None => None,
        }
    }

    /// What one light towards `l` adds at `p`: nothing where the shadow ray
    /// from `p` is blocked, else the diffuse term and the highlight. The power
    /// in the highlight is taken by a call of `pow`.
    pub fn calc_light<P: Fn(Scalar, Scalar) -> Scalar>(
        &self,
        p: &Tuple,
        n: &Tuple,
        l: &Tuple,
        intensity: &Scalar,
        v: &Tuple,
        s: Scalar,
        t_max: Scalar,
        pow: &P,
    ) -> (i: Scalar)
        requires
            is_pure(pow),
        ensures
            i == self@.spec_calc_light(*p, *n, *l, *intensity, *v, s, t_max, power_of(pow)),
            self@.occluded(*p, *l, t_max) ==> i == Scalar::zero(),
    {
        let intersection = self.closest_intersection(p, l, surface_offset(), t_max);
        if intersection.is_some() {
            return Scalar::zero();
        }
        let mut i = Scalar::zero();
        let n_dot_l = n.dot(l);
        i = i.add(
            if n_dot_l.gt(Scalar::zero()) {
                intensity.mul(n_dot_l).div(n.magnitude().mul(l.magnitude()))
            } else {
                Scalar::zero()
            },
        );

        if !s.same(no_highlight()) {
            let r = reflect_ray(l, n);
            let r_dot_v = r.dot(v);
            if r_dot_v.gt(Scalar::zero()) {
                let base = r_dot_v.div(r.magnitude().mul(v.magnitude()));
                i = i.add(intensity.mul(pow(base, s)));
            }
        }

        i
    }

    /// Sums what every light adds at the point `point` of a surface with
    /// normal `normal`, seen from direction `v`, with specular exponent `s`.
    /// Nothing is clamped. Highlights take their power from `pow`.
    pub fn compute_lighting<P: Fn(Scalar, Scalar) -> Scalar>(
        &self,
        point: &Tuple,
        normal: &Tuple,
        v: &Tuple,
        s: Scalar,
        pow: &P,
    ) -> (i: Scalar)
        requires
            is_pure(pow),
        ensures
            i == self@.spec_compute_lighting(*point, *normal, *v, s, power_of(pow)),
    {
        let mut i = Scalar::zero();

        let mut k: usize = 0;
        while k < self.lights.len()
            invariant
                k <= self.lights.len(),
                is_pure(pow),
                i == self@.lighting_of(*point, *normal, *v, s, power_of(pow), k as nat),
            decreases self.lights.len() - k,
        {
            match &self.lights[k] {
                Light::Ambient(intensity) => {
                    i = i.add(*intensity);
                },
                Light::Point(intensity, position) => {
                    i = i.add(
                        self.calc_light(
                            point,
                            normal,
                            &(position - point),
                            intensity,
                            v,
                            s,
                            Scalar::one(),
                            pow,
                        ),
                    );
                },
                Light::Directional(intensity, direction) => {
                    i = i.add(
                        self.calc_light(
                            point,
                            normal,
                            direction,
                            intensity,
                            v,
                            s,
                            Scalar::max(),
                            pow,
                        ),
                    );
                },
            }
            k += 1;
        }

        i
    }

    /// Traces one ray: black where it meets nothing within the interval, else
    /// the local shading of the nearest sphere, mixed with what the mirrored
    /// ray returns where the sphere reflects and `recursive_depth` allows.
    /// Highlights take their power from `pow`.
    pub fn trace_ray<P: Fn(Scalar, Scalar) -> Scalar>(
        &self,
        origin: &Tuple,
        direction: &Tuple,
        t_min: Scalar,
        t_max: Scalar,
        recursive_depth: usize,
        pow: &P,
    ) -> (color: Color)
        requires
            is_pure(pow),
        ensures
            color == self@.spec_trace_ray(
                *origin,
                *direction,
                t_min,
                t_max,
                recursive_depth as nat,
                power_of(pow),
            ),
            match self@.closest_hit(*origin, *direction, t_min, t_max) {
                Some((i, t)) => recursive_depth == 0 || self.spheres@[i].reflective.le(
                    Scalar::zero(),
                ) ==> color == self@.local_color(i, *origin, *direction, t, power_of(pow)),
                None => color == Color::black(),
            },
        decreases recursive_depth,
    {
        let intersection = self.closest_intersection(origin, direction, t_min, t_max);
        match intersection {
            Some((sphere, closest_t)) => {
                let p = origin + (direction * closest_t);
                let n = p - sphere.center;
                let n = n / n.magnitude();
                let local_color = &sphere.color * self.compute_lighting(
                    &p,
                    &n,
                    &direction.neg(),
                    sphere.specular,
                    pow,
                );

                let r = sphere.reflective;
                if recursive_depth <= 0 || r.le(Scalar::zero()) {
                    local_color
                } else {
                    let redirected = reflect_ray(&direction.neg(), &n);
                    let reflected_color = self.trace_ray(
                        &p,
                        &redirected,
                        surface_offset(),
                        Scalar::max(),
                        recursive_depth - 1,
                        pow,
                    );
                    local_color * Scalar::one().sub(r) + reflected_color * r
                }
            },
            None => Color::black(),
        }
    }
}

/// The lights under which `render` shows every scene: an ambient light of
/// intensity 0.2, a point light of 0.6 at (2, 1, 0), and a directional light
/// of 0.2 towards the point (1, 4, 4).
pub open spec fn spec_render_lights() -> Seq<Light> {
    seq![
        Light::Ambient(Scalar { bits: 0x3FC9_9999_9999_999A }),
        Light::Point(
            Scalar { bits: 0x3FE3_3333_3333_3333 },
            Tuple::point(Scalar::two(), Scalar::one(), Scalar::zero()),
        ),
        Light::Directional(
            Scalar { bits: 0x3FC9_9999_9999_999A },
            Tuple::point(Scalar::one(), Scalar::four(), Scalar::four()),
        ),
    ]
}

/// The color that a render gives the pixel `(x, y)` of the canvas: that of
/// the ray from the world's origin through the pixel, traced from the image
/// plane at distance one onwards with three reflections allowed.
pub open spec fn rendered_color(
    spheres: Seq<Sphere>,
    viewport: &Viewport,
    canvas: &Canvas,
    x: i32,
    y: i32,
    pow: Power,
) -> Color {
    SceneView { spheres, lights: spec_render_lights() }.spec_trace_ray(
        Tuple::point(Scalar::zero(), Scalar::zero(), Scalar::zero()),
        viewport.canvas_to_viewport(canvas, x, y),
        Scalar::one(),
        Scalar::max(),
        3,
        pow,
    )
}

/// Whether pixel `i` of the buffer is as a render leaves it once it has
/// finished the first `columns` columns and, of the next, the first `rows`
/// rows: rendered if it lies in that part, untouched if not.
pub open spec fn painted(
    before: &Canvas,
    after: Seq<Color>,
    spheres: Seq<Sphere>,
    viewport: &Viewport,
    pow: Power,
    columns: int,
    rows: int,
    i: int,
) -> bool {
    let column = i % (before.width as int);
    let row = i / (before.width as int);
    if row < 2 * (before.height / 2) && column < columns || column == columns && row < rows {
        after[i] == rendered_color(
            spheres,
            viewport,
            before,
            (column - before.width / 2) as i32,
            (row - before.height / 2) as i32,
            pow,
        )
    } else {
        after[i] == before@[i]
    }
}

fn render_lights() -> (lights: Vec<Light>)
    ensures
        lights@ == spec_render_lights(),
{
    let mut lights: Vec<Light> = Vec::new();
    lights.push(Light::Ambient(Scalar::from_bits(0x3FC9_9999_9999_999A)));
    lights.push(
        Light::Point(
            Scalar::from_bits(0x3FE3_3333_3333_3333),
            Tuple::point(Scalar::two(), Scalar::one(), Scalar::zero()),
        ),
    );
    lights.push(
        Light::Directional(
            Scalar::from_bits(0x3FC9_9999_9999_999A),
            Tuple::point(Scalar::one(), Scalar::four(), Scalar::four()),
        ),
    );
    assert(lights@ =~= spec_render_lights());
    lights
}

/// Renders the spheres onto the canvas. Every pixel of the centred rectangle
/// that the canvas covers is traced and written once; a last column or row
/// that an odd size leaves outside the rectangle stays as it was. Highlights
/// take their power from `pow`.
pub fn render<P: Fn(Scalar, Scalar) -> Scalar>(
    canvas: &mut Canvas,
    viewport: &Viewport,
    spheres: Vec<Sphere>,
    pow: &P,
)
    requires
        old(canvas).wf(),
        is_pure(pow),
    ensures
        final(canvas).wf(),
        final(canvas).width == old(canvas).width,
        final(canvas).height == old(canvas).height,
        forall|x: i32, y: i32|
            old(canvas).covers(x as int, y as int) ==> #[trigger] final(canvas).spec_pixel_at(
                x as int,
                y as int,
            ) == rendered_color(spheres@, viewport, old(canvas), x, y, power_of(pow)),
        forall|i: int|
            0 <= i < old(canvas)@.len() && (i % (old(canvas).width as int) >= 2 * (old(
                canvas,
            ).width / 2) || i / (old(canvas).width as int) >= 2 * (old(canvas).height / 2))
                ==> #[trigger] final(canvas)@[i] == old(canvas)@[i],
{
    let origin = Tuple::point(Scalar::zero(), Scalar::zero(), Scalar::zero());

    let ghost shown = spheres@;
    let scene = Scene { spheres, lights: render_lights() };

    let half_x = canvas.width / 2;
    let half_y = canvas.height / 2;

    let mut x = -half_x;
    while x < half_x
        invariant
            canvas.wf(),
            is_pure(pow),
            canvas.width == old(canvas).width,
            canvas.height == old(canvas).height,
            half_x == canvas.width / 2,
            half_y == canvas.height / 2,
            -half_x <= x <= half_x,
            scene@ == (SceneView { spheres: shown, lights: spec_render_lights() }),
            origin == Tuple::point(Scalar::zero(), Scalar::zero(), Scalar::zero()),
            forall|i: int|
                0 <= i < canvas@.len() ==> #[trigger] painted(
                    old(canvas),
                    canvas@,
                    shown,
                    viewport,
                    power_of(pow),
                    half_x + x,
                    0,
                    i,
                ),
        decreases half_x - x,
    {
        let mut y = -half_y;
        while y < half_y
            invariant
                canvas.wf(),
                is_pure(pow),
                canvas.width == old(canvas).width,
                canvas.height == old(canvas).height,
                half_x == canvas.width / 2,
                half_y == canvas.height / 2,
                -half_x <= x < half_x,
                -half_y <= y <= half_y,
                scene@ == (SceneView { spheres: shown, lights: spec_render_lights() }),
                origin == Tuple::point(Scalar::zero(), Scalar::zero(), Scalar::zero()),
                forall|i: int|
                    0 <= i < canvas@.len() ==> #[trigger] painted(
                        old(canvas),
                        canvas@,
                        shown,
                        viewport,
                        power_of(pow),
                        half_x + x,
                        half_y + y,
                        i,
                    ),
            decreases half_y - y,
        {
            let d = viewport.canvas_to_viewport(canvas, x, y);
            let color = scene.trace_ray(&origin, &d, Scalar::one(), Scalar::max(), 3, pow);
            proof {
                canvas.lemma_covered_is_addressable(x as int, y as int);
            }
            let ghost earlier = canvas@;
            let ghost target = canvas.index_of(x as int, y as int);
            let ghost row = y;
            canvas.put_pixel(x, y, &color);
            y += 1;
            proof {
                assert forall|i: int| 0 <= i < canvas@.len() implies #[trigger] painted(
                    old(canvas),
                    canvas@,
                    shown,
                    viewport,
                    power_of(pow),
                    half_x + x,
                    half_y + y,
                    i,
                ) by {
                    assert(painted(
                        old(canvas),
                        earlier,
                        shown,
                        viewport,
                        power_of(pow),
                        half_x + x,
                        half_y + row,
                        i,
                    ));
                    if i != target {
                        let w = canvas.width as int;
                        if i % w == half_x + x && i / w == half_y + row {
                            vstd::arithmetic::div_mod::lemma_fundamental_div_mod(i, w);
                            vstd::arithmetic::div_mod::lemma_fundamental_div_mod(target, w);
                        }
                    }
                }
            }
        }
        let ghost column = x;
        x += 1;
        proof {
            assert forall|i: int| 0 <= i < canvas@.len() implies #[trigger] painted(
                old(canvas),
                canvas@,
                shown,
                viewport,
                power_of(pow),
                half_x + x,
                0,
                i,
            ) by {
                vstd::arithmetic::div_mod::lemma_div_pos_is_pos(i, canvas.width as int);
                assert(painted(
                    old(canvas),
                    canvas@,
                    shown,
                    viewport,
                    power_of(pow),
                    half_x + column,
                    half_y + y,
                    i,
                ));
            }
        }
    }
    proof {
        assert forall|x: i32, y: i32|
            old(canvas).covers(x as int, y as int) implies #[trigger] canvas.spec_pixel_at(
            x as int,
            y as int,
        ) == rendered_color(shown, viewport, old(canvas), x, y, power_of(pow)) by {
            old(canvas).lemma_covered_is_addressable(x as int, y as int);
            let i = old(canvas).index_of(x as int, y as int);
            assert(painted(
                old(canvas),
                canvas@,
                shown,
                viewport,
                power_of(pow),
                half_x + half_x,
                0,
                i,
            ));
        }
        assert forall|i: int|
            0 <= i < old(canvas)@.len() && (i % (old(canvas).width as int) >= 2 * (old(
                canvas,
            ).width / 2) || i / (old(canvas).width as int) >= 2 * (old(canvas).height / 2))
         implies #[trigger] canvas@[i] == old(canvas)@[i] by {
            assert(painted(
                old(canvas),
                canvas@,
                shown,
                viewport,
                power_of(pow),
                half_x + half_x,
                0,
                i,
            ));
        }
    }
}

/// A sphere whose discriminant along the ray is negative is not met, in any
/// interval: both of its roots are the largest finite number, which never
/// counts as a hit.
proof fn lemma_negative_discriminant_misses(
    scene: SceneView,
    j: int,
    origin: Tuple,
    direction: Tuple,
    t_min: Scalar,
    t_max: Scalar,
)
    requires
        0 <= j < scene.spheres.len(),
        scene.spheres[j].discriminant(&origin, &direction).lt(Scalar::zero()),
    ensures
        !scene.meets(j, origin, direction, t_min, t_max),
{
}

/// A ray that meets no sphere within its interval has no nearest hit, and one
/// that meets a sphere has one.
pub proof fn lemma_closest_hit_is_none(
    scene: SceneView,
    origin: Tuple,
    direction: Tuple,
    t_min: Scalar,
    t_max: Scalar,
)
    ensures
        scene.closest_hit(origin, direction, t_min, t_max) is None <==> forall|j: int|
            0 <= j < scene.spheres.len() ==> !#[trigger] scene.meets(
                j,
                origin,
                direction,
                t_min,
                t_max,
            ),
{
    scene.lemma_scan_finds_nearest(origin, direction, t_min, t_max, scene.spheres.len());
    match scene.scan(origin, direction, t_min, t_max, scene.spheres.len()).index {
        Some(i) => {
            assert(scene.meets(i, origin, direction, t_min, t_max));
        },
        None => {},
    }
}

/// A scan never holds a distance above the largest finite number, so any end
/// of the interval at or above that number, infinity included, gives the same
/// scan as that number itself.
proof fn lemma_scan_far_end(
    scene: SceneView,
    origin: Tuple,
    direction: Tuple,
    t_min: Scalar,
    t_max: Scalar,
    n: nat,
)
    requires
        Scalar::max().le(t_max),
    ensures
        scene.scan(origin, direction, t_min, t_max, n) == scene.scan(
            origin,
            direction,
            t_min,
            Scalar::max(),
            n,
        ),
        scene.scan(origin, direction, t_min, t_max, n).t.le(Scalar::max()),
    decreases n,
{
    if n > 0 {
        lemma_scan_far_end(scene, origin, direction, t_min, t_max, (n - 1) as nat);
    }
}

/// An interval that ends at the largest finite number is as good as
/// unbounded: the nearest hit is the same for every end at or above that
/// number, infinity included.
pub proof fn law_far_end_is_unbounded(
    scene: SceneView,
    origin: Tuple,
    direction: Tuple,
    t_min: Scalar,
    t_max: Scalar,
)
    requires
        Scalar::max().le(t_max),
    ensures
        scene.closest_hit(origin, direction, t_min, t_max) == scene.closest_hit(
            origin,
            direction,
            t_min,
            Scalar::max(),
        ),
{
    lemma_scan_far_end(scene, origin, direction, t_min, t_max, scene.spheres.len());
}

/// A ray that misses every sphere is traced to black: whatever the lights of
/// the scene are, however many reflections are allowed, and whatever the
/// power function is.
pub proof fn law_miss_is_black(
    scene: SceneView,
    origin: Tuple,
    direction: Tuple,
    t_min: Scalar,
    t_max: Scalar,
    depth: nat,
    pow: Power,
)
    requires
        forall|j: int|
            0 <= j < scene.spheres.len() ==> !#[trigger] scene.meets(
                j,
                origin,
                direction,
                t_min,
                t_max,
            ),
    ensures
        scene.spec_trace_ray(origin, direction, t_min, t_max, depth, pow) == Color::black(),
{
    lemma_closest_hit_is_none(scene, origin, direction, t_min, t_max);
}

/// A ray along which every sphere has a negative discriminant is traced to
/// black, in any interval and under any lights.
pub proof fn law_no_root_is_black(
    scene: SceneView,
    origin: Tuple,
    direction: Tuple,
    t_min: Scalar,
    t_max: Scalar,
    depth: nat,
    pow: Power,
)
    requires
        forall|j: int|
            0 <= j < scene.spheres.len() ==> (#[trigger] scene.spheres[j]).discriminant(
                &origin,
                &direction,
            ).lt(Scalar::zero()),
    ensures
        scene.spec_trace_ray(origin, direction, t_min, t_max, depth, pow) == Color::black(),
{
    assert forall|j: int| 0 <= j < scene.spheres.len() implies !#[trigger] scene.meets(
        j,
        origin,
        direction,
        t_min,
        t_max,
    ) by {
        lemma_negative_discriminant_misses(scene, j, origin, direction, t_min, t_max);
    }
    law_miss_is_black(scene, origin, direction, t_min, t_max, depth, pow);
}

/// A light whose shadow ray from the point `p` is blocked adds exactly zero
/// there, diffuse term and highlight alike, be it a point light or a
/// directional one; an ambient light adds its intensity whatever stands in the
/// scene. So of an ambient light and a blocked point light, in this order, the
/// illumination at `p` is zero plus the ambient intensity, plus zero.
pub proof fn law_shadow_blocks_light(
    scene: SceneView,
    ambient: Scalar,
    intensity: Scalar,
    place: Tuple,
    p: Tuple,
    n: Tuple,
    v: Tuple,
    s: Scalar,
    pow: Power,
)
    ensures
        scene.contribution(Light::Ambient(ambient), p, n, v, s, pow) == ambient,
        scene.occluded(p, place.minus(p), Scalar::one()) ==> scene.contribution(
            Light::Point(intensity, place),
            p,
            n,
            v,
            s,
            pow,
        ) == Scalar::zero(),
        scene.occluded(p, place, Scalar::max()) ==> scene.contribution(
            Light::Directional(intensity, place),
            p,
            n,
            v,
            s,
            pow,
        ) == Scalar::zero(),
        scene.occluded(p, place.minus(p), Scalar::one()) && scene.lights == seq![
            Light::Ambient(ambient),
            Light::Point(intensity, place),
        ] ==> scene.spec_compute_lighting(p, n, v, s, pow) == Scalar::zero().add(ambient).add(
            Scalar::zero(),
        ),
{
    if scene.occluded(p, place.minus(p), Scalar::one()) && scene.lights == seq![
        Light::Ambient(ambient),
        Light::Point(intensity, place),
    ] {
        reveal_with_fuel(SceneView::lighting_of, 3);
        assert(scene.lights.len() == 2);
        assert(scene.lights[0] == Light::Ambient(ambient));
        assert(scene.lights[1] == Light::Point(intensity, place));
    }
}

/// A sphere that does not reflect returns its local shading exactly: where the
/// reflective coefficient of the sphere that the ray meets is zero or less,
/// no reflected ray enters the result, however many reflections are allowed.
/// The same holds of any sphere once no reflection is allowed.
pub proof fn law_no_reflection_is_local(
    scene: SceneView,
    origin: Tuple,
    direction: Tuple,
    t_min: Scalar,
    t_max: Scalar,
    depth: nat,
    pow: Power,
)
    requires
        scene.closest_hit(origin, direction, t_min, t_max) is Some,
    ensures
        ({
            let (i, t) = scene.closest_hit(origin, direction, t_min, t_max)->0;
            scene.spheres[i].reflective.le(Scalar::zero()) || depth == 0 ==> scene.spec_trace_ray(
                origin,
                direction,
                t_min,
                t_max,
                depth,
                pow,
            ) == scene.local_color(i, origin, direction, t, pow)
        }),
{
}

} // verus!
