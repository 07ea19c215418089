//! The scene: an append-only arena of shapes and lights, ray intersection
//! against every shape, and the recursive shading algorithm.

use vstd::prelude::*;
use crate::color::{Color, spec_color_add, spec_color_mul_scalar, spec_white};
use crate::fx::{
    fx_mul, fx_add, fx_sub, fx_div, fx_sqrt, near_equal, spec_near, FX_ONE,
};
use crate::intersection::{
    Intersection, IntersectionList, Comp, spec_sort, spec_find_hit, sorted_by_t,
    spec_prepare_computation,
};
use crate::material::spec_lighting;
use crate::matrix::spec_identity;
use crate::point_light::PointLight;
use crate::ray::Ray;
use crate::shape::{Shape, ShapeView, shape_wf, spec_shape_intersect, ShapeType};
use crate::transform::spec_scaling;
use crate::tuple::{Tuple, spec_sub, spec_normalize, spec_magnitude, spec_dot, spec_mul_scalar};
use crate::material::{MaterialView, spec_default_material};

verus! {

broadcast use vstd::seq_lib::group_to_multiset_ensures;

/// An object or light id that the world does not hold.
#[derive(Clone, Copy, Debug, PartialEq, Eq, Structural)]
pub struct InvalidWorldAccess;

#[derive(Debug)]
pub struct World {
    objects: Vec<Shape>,
    lights: Vec<PointLight>,
}

pub ghost struct WorldView {
    pub objects: Seq<ShapeView>,
    pub lights: Seq<PointLight>,
}

impl View for World {
    type V = WorldView;

    closed spec fn view(&self) -> WorldView {
        WorldView {
            objects: self.objects@.map_values(|s: Shape| s@),
            lights: self.lights@,
        }
    }
}

/// Every registered shape can be intersected and shaded (its transforms
/// invert), and holds the id the world assigned to it.
pub open spec fn world_wf(w: WorldView) -> bool {
    forall|i: int|
        0 <= i < w.objects.len() ==> shape_wf(#[trigger] w.objects[i]) && w.objects[i].id == Some(
            i as usize,
        )
}

/// All intersections of the ray with the first `k` shapes, in shape order.
pub open spec fn spec_world_hits_up_to(w: WorldView, r: Ray, k: int) -> Seq<Intersection>
    decreases k,
{
    if k <= 0 {
        Seq::empty()
    } else {
        spec_world_hits_up_to(w, r, k - 1) + match spec_shape_intersect(w.objects[k - 1], r) {
            Some(s) => s,
            None => Seq::empty(),
        }
    }
}

pub open spec fn spec_world_hits(w: WorldView, r: Ray) -> Seq<Intersection> {
    spec_world_hits_up_to(w, r, w.objects.len() as int)
}

/// The two-sphere, one-light reference scene.
pub open spec fn spec_default_world() -> WorldView {
    WorldView {
        objects: seq![
            ShapeView {
                material: MaterialView {
                    color: Color { red: 80_000_000i64, blue: 60_000_000i64, green: FX_ONE },
                    diffuse: 70_000_000i64,
                    specular: 20_000_000i64,
                    ..spec_default_material()
                },
                transform: spec_identity(),
                id: Some(0usize),
                kind: ShapeType::Sphere,
                has_shadow: true,
            },
            ShapeView {
                material: spec_default_material(),
                transform: crate::matrix::spec_mat_mul(
                    spec_scaling(50_000_000, 50_000_000, 50_000_000),
                    spec_identity(),
                ),
                id: Some(1usize),
                kind: ShapeType::Sphere,
                has_shadow: true,
            },
        ],
        lights: seq![
            PointLight {
                position: Tuple { x: -1_000_000_000i64, y: 1_000_000_000i64, z: -1_000_000_000i64, w: FX_ONE },
                intensity: spec_white(),
                id: 0usize,
            },
        ],
    }
}

/// The recursion budget as a termination rank: exhausted budgets rank 0.
pub open spec fn spec_depth_rank(depth: int) -> int {
    if depth <= 0 {
        0
    } else {
        depth
    }
}

/// A point is shadowed from a light when the hit of a ray cast from the
/// point toward the light belongs to a shadow-casting shape and lies
/// closer than the light.
#[verifier::opaque]
pub open spec fn spec_is_shadowed(w: WorldView, p: Tuple, light: PointLight) -> bool {
    let v = spec_sub(light.position, p);
    let distance = spec_magnitude(v);
    let shadow_ray = Ray { origin: p, direction: spec_normalize(v) };
    let hits = spec_sort(spec_world_hits(w, shadow_ray));
    match spec_find_hit(hits, 0) {
        Some(k) => w.objects[hits[k].object_id as int].has_shadow && hits[k].t < distance,
        None => false,
    }
}

/// The Schlick approximation of the Fresnel reflectance: 1.0 under total
/// internal reflection, else `r0 + (1 - r0) * (1 - cos)^5` with the
/// cosine recomputed through Snell's law when the ray leaves the denser
/// medium.
pub open spec fn spec_schlick(comps: Comp) -> i64 {
    let cos0 = spec_dot(comps.eyev, comps.normalv);
    if comps.n1 > comps.n2 {
        let n = fx_div(comps.n1, comps.n2);
        let sin2_t = fx_mul(fx_mul(n, n), fx_sub(FX_ONE, fx_mul(cos0, cos0)));
        if sin2_t > FX_ONE {
            FX_ONE
        } else {
            spec_schlick_r0(comps, fx_sqrt(fx_sub(FX_ONE, sin2_t)))
        }
    } else {
        spec_schlick_r0(comps, cos0)
    }
}

pub open spec fn spec_schlick_r0(comps: Comp, cos: i64) -> i64 {
    let r0 = crate::fx::spec_fx_pow(fx_div(fx_sub(comps.n1, comps.n2), fx_add(comps.n1, comps.n2)), 2);
    fx_add(r0, fx_mul(fx_sub(FX_ONE, r0), crate::fx::spec_fx_pow(fx_sub(FX_ONE, cos), 5)))
}

/// The color seen along a ray: black on a miss, else the shading of the
/// nearest qualifying hit.
#[verifier::opaque]
pub open spec fn spec_color_at(w: WorldView, r: Ray, depth: int) -> Color
    decreases spec_depth_rank(depth), 3int, 0int,
{
    let hits = spec_sort(spec_world_hits(w, r));
    match spec_find_hit(hits, 0) {
        Some(k) => spec_shade_hit(w, spec_prepare_computation(hits, k, r, w), depth),
        None => Color { red: 0i64, blue: 0i64, green: 0i64 },
    }
}

/// Surface, reflected and refracted contributions accumulated over the
/// first `k` lights. When the material is both reflective and
/// transparent, the two recursive contributions are blended by the
/// Schlick reflectance.
pub open spec fn spec_shade_parts(w: WorldView, comps: Comp, depth: int, k: int) -> (Color, Color, Color)
    decreases spec_depth_rank(depth), 1int, k,
{
    let black = Color { red: 0i64, blue: 0i64, green: 0i64 };
    if k <= 0 {
        (black, black, black)
    } else {
        let (surface0, reflected0, refracted0) = spec_shade_parts(w, comps, depth, k - 1);
        let object = w.objects[comps.object_id as int];
        let material = object.material;
        let light = w.lights[k - 1];
        let shadowed = spec_is_shadowed(w, comps.over_point, light);
        let surface = spec_color_add(
            surface0,
            spec_lighting(
                material,
                light,
                object.transform,
                comps.point,
                comps.eyev,
                comps.normalv,
                shadowed,
            ),
        );
        let curr_reflected = spec_reflected_color(w, comps, depth);
        let curr_refracted = spec_refracted_color(w, comps, depth);
        if material.reflective > 0 && material.transparency > 0 {
            let reflectance = spec_schlick(comps);
            (
                surface,
                spec_color_add(reflected0, spec_color_mul_scalar(curr_reflected, reflectance)),
                spec_color_add(
                    refracted0,
                    spec_color_mul_scalar(curr_refracted, fx_sub(FX_ONE, reflectance)),
                ),
            )
        } else {
            (
                surface,
                spec_color_add(reflected0, curr_reflected),
                spec_color_add(refracted0, curr_refracted),
            )
        }
    }
}

/// Shading of one prepared hit: Phong surface light plus recursive
/// reflection and refraction, summed across the world's lights.
pub open spec fn spec_shade_hit(w: WorldView, comps: Comp, depth: int) -> Color
    decreases spec_depth_rank(depth), 2int, 0int,
{
    let (surface, reflected, refracted) = spec_shade_parts(
        w,
        comps,
        depth,
        w.lights.len() as int,
    );
    spec_color_add(spec_color_add(surface, reflected), refracted)
}

/// The reflected contribution: black once the budget is spent or for a
/// non-reflective surface, else the color along the reflection ray cast
/// from `over_point`, scaled by the reflectivity.
pub open spec fn spec_reflected_color(w: WorldView, comps: Comp, depth: int) -> Color
    decreases spec_depth_rank(depth), 0int, 0int,
{
    let black = Color { red: 0i64, blue: 0i64, green: 0i64 };
    if depth <= 0 {
        black
    } else {
        let material = w.objects[comps.object_id as int].material;
        if spec_near(material.reflective, 0) {
            black
        } else {
            let reflect_ray = Ray { origin: comps.over_point, direction: comps.reflectv };
            spec_color_mul_scalar(spec_color_at(w, reflect_ray, depth - 1), material.reflective)
        }
    }
}

/// The refracted contribution: black once the budget is spent, under
/// total internal reflection, or for a surface that is not transparent;
/// else the color along the Snell-refracted ray cast from `under_point`,
/// scaled by the transparency.
pub open spec fn spec_refracted_color(w: WorldView, comps: Comp, depth: int) -> Color
    decreases spec_depth_rank(depth), 0int, 0int,
{
    let black = Color { red: 0i64, blue: 0i64, green: 0i64 };
    if depth <= 0 {
        black
    } else {
        let n_ratio = fx_div(comps.n1, comps.n2);
        let cos_i = spec_dot(comps.eyev, comps.normalv);
        let sin2_t = fx_mul(fx_mul(n_ratio, n_ratio), fx_sub(FX_ONE, fx_mul(cos_i, cos_i)));
        if sin2_t > FX_ONE {
            black
        } else {
            let material = w.objects[comps.object_id as int].material;
            if spec_near(material.transparency, 0) {
                black
            } else {
                let cos_t = fx_sqrt(fx_sub(FX_ONE, sin2_t));
                let direction = spec_sub(
                    spec_mul_scalar(comps.normalv, fx_sub(fx_mul(n_ratio, cos_i), cos_t)),
                    spec_mul_scalar(comps.eyev, n_ratio),
                );
                let refract_ray = Ray { origin: comps.under_point, direction };
                spec_color_mul_scalar(
                    spec_color_at(w, refract_ray, depth - 1),
                    material.transparency,
                )
            }
        }
    }
}

impl World {
    pub fn new() -> (r: World)
        ensures
            r@.objects.len() == 0,
            r@.lights.len() == 0,
            world_wf(r@),
    {
        let w = World { objects: Vec::new(), lights: Vec::new() };
        proof {
            assert(w@.objects =~= Seq::<ShapeView>::empty());
        }
        w
    }

    pub fn default_world() -> (r: World)
        ensures
            r@.objects =~= spec_default_world().objects,
            r@.lights =~= spec_default_world().lights,
    {
        let light = PointLight::new(
            Tuple::point(-1_000_000_000, 1_000_000_000, -1_000_000_000),
            Color::new(FX_ONE, FX_ONE, FX_ONE),
        );
        let mut s1 = Shape::sphere();
        s1.set_color(Color::new(80_000_000, FX_ONE, 60_000_000));
        s1.set_diffuse(70_000_000);
        s1.set_specular(20_000_000);
        let mut s2 = Shape::sphere();
        s2.scale(50_000_000, 50_000_000, 50_000_000);
        let mut new_world = Self::new();
        new_world.add_object(s1);
        new_world.add_object(s2);
        new_world.add_light(light);
        proof {
            assert(new_world@.objects =~= spec_default_world().objects);
            assert(new_world@.lights =~= spec_default_world().lights);
        }
        new_world
    }

    pub fn get_object(&self, id: usize) -> (r: Option<&Shape>)
        ensures
            match r {
                Some(s) => id < self@.objects.len() && s@ == self@.objects[id as int],
                None => id >= self@.objects.len(),
            },
    {
        if id < self.objects.len() {
            Some(&self.objects[id])
        } else {
            None
        }
    }

    pub fn num_objects(&self) -> (r: usize)
        ensures
            r == self@.objects.len(),
    {
        self.objects.len()
    }

    pub fn get_light(&self, id: usize) -> (r: Option<&PointLight>)
        ensures
            match r {
                Some(l) => id < self@.lights.len() && *l == self@.lights[id as int],
                None => id >= self@.lights.len(),
            },
    {
        if id < self.lights.len() {
            Some(&self.lights[id])
        } else {
            None
        }
    }

    /// Replace the light at `id`; the stored copy (and the caller's) takes
    /// that id. Fails on an id the world has not assigned.
    pub fn set_light(&mut self, id: usize, new_light: &mut PointLight) -> (r: Result<
        (),
        InvalidWorldAccess,
    >)
        ensures
            match r {
                Ok(()) => {
                    &&& id < old(self)@.lights.len()
                    &&& *final(new_light) == (PointLight { id, ..*old(new_light) })
                    &&& final(self)@.objects == old(self)@.objects
                    &&& final(self)@.lights == old(self)@.lights.update(
                        id as int,
                        *final(new_light),
                    )
                },
                Err(_) => {
                    &&& id >= old(self)@.lights.len()
                    &&& final(self)@ == old(self)@
                    &&& *final(new_light) == *old(new_light)
                },
            },
    {
        if id < self.lights.len() {
            new_light.id = id;
            self.lights[id] = *new_light;
            Ok(())
        } else {
            Err(InvalidWorldAccess)
        }
    }

    /// Register a shape; the world assigns it the next index as its id.
    pub fn add_object(&mut self, o: Shape) -> (id: usize)
        ensures
            id == old(self)@.objects.len(),
            final(self)@.objects == old(self)@.objects.push(ShapeView { id: Some(id), ..o@ }),
            final(self)@.lights == old(self)@.lights,
    {
        let id: usize = self.objects.len();
        let mut o = o;
        o.set_id(id);
        self.objects.push(o);
        proof {
            assert(self@.objects =~= old(self)@.objects.push(
                ShapeView { id: Some(id), ..o@ },
            ));
        }
        id
    }

    /// Register a light; the world assigns it the next index as its id.
    pub fn add_light(&mut self, l: PointLight) -> (id: usize)
        ensures
            id == old(self)@.lights.len(),
            final(self)@.lights == old(self)@.lights.push(PointLight { id, ..l }),
            final(self)@.objects == old(self)@.objects,
    {
        let id: usize = self.lights.len();
        let mut l = l;
        l.id = id;
        self.lights.push(l);
        id
    }

    /// All intersections of the ray with every shape, sorted ascending by
    /// `t`.
    #[verifier::rlimit(100)]
    pub fn intersect(&self, r: &Ray) -> (result: IntersectionList)
        requires
            world_wf(self@),
        ensures
            result@ == spec_sort(spec_world_hits(self@, *r)),
            sorted_by_t(result@),
            result@.to_multiset() == spec_world_hits(self@, *r).to_multiset(),
            result.wf(),
            result.is_presorted(),
            result.spec_hit_index() == 0,
            forall|k: int|
                0 <= k < result@.len() ==> (#[trigger] result@[k]).object_id
                    < self@.objects.len(),
    {
        let mut intersections: Vec<Intersection> = Vec::new();
        let n: usize = self.objects.len();
        let mut i: usize = 0;
        while i < n
            invariant
                world_wf(self@),
                n == self@.objects.len(),
                i <= n,
                intersections@ == spec_world_hits_up_to(self@, *r, i as int),
                forall|k: int|
                    0 <= k < intersections@.len() ==> (#[trigger] intersections@[k]).object_id
                        < n,
            decreases n - i,
        {
            proof {
                assert(self@.objects[i as int] == self.objects@[i as int]@);
                assert(shape_wf(self@.objects[i as int]));
            }
            if let Some(mut xs) = self.objects[i].intersect(r) {
                intersections.append(&mut xs);
            }
            i = i + 1;
        }
        proof {
            let hits = spec_world_hits(self@, *r);
            assert(intersections@ == hits);
        }
        let result = IntersectionList::new(&intersections);
        proof {
            let hits = spec_world_hits(self@, *r);
            assert forall|k: int| 0 <= k < result@.len() implies (#[trigger] result@[k]).object_id
                < self@.objects.len() by {
                assert(result@.contains(result@[k]));
                assert(result@.to_multiset().count(result@[k]) > 0);
                assert(hits.to_multiset().count(result@[k]) > 0);
                assert(hits.contains(result@[k]));
                let w = choose|w: int| 0 <= w < hits.len() && hits[w] == result@[k];
                assert(intersections@[w].object_id < self@.objects.len());
            }
        }
        result
    }

    /// True when the point lies in this light's shadow.
    pub fn is_shadowed(&self, p: Tuple, light: &PointLight) -> (r: bool)
        requires
            world_wf(self@),
        ensures
            r == spec_is_shadowed(self@, p, *light),
    {
        proof {
            reveal(spec_is_shadowed);
        }
        let v: Tuple = light.position.sub(&p);
        let distance: i64 = v.magnitude();
        let shadow_ray = Ray::new(p, v.normalize());
        let mut ix = self.intersect(&shadow_ray);
        if let Some(hit) = ix.hit() {
            let object = self.get_object(hit.object_id).unwrap();
            if object.has_shadow() && hit.t < distance {
                return true;
            }
        }
        false
    }

    /// The Schlick reflectance approximation for a prepared hit.
    pub fn schlick(comps: &Comp) -> (r: i64)
        ensures
            r == spec_schlick(*comps),
    {
        let mut cos: i64 = comps.eyev.dot_product(&comps.normalv);
        if comps.n1 > comps.n2 {
            let n: i64 = fx_div(comps.n1, comps.n2);
            let sin2_t: i64 = fx_mul(fx_mul(n, n), fx_sub(FX_ONE, fx_mul(cos, cos)));
            if sin2_t > FX_ONE {
                return FX_ONE;
            }
            cos = fx_sqrt(fx_sub(FX_ONE, sin2_t));
        }
        let r0: i64 = crate::fx::fx_pow(fx_div(fx_sub(comps.n1, comps.n2), fx_add(comps.n1, comps.n2)), 2);
        fx_add(r0, fx_mul(fx_sub(FX_ONE, r0), crate::fx::fx_pow(fx_sub(FX_ONE, cos), 5)))
    }

    /// The shading of one prepared hit at the given recursion budget.
    #[verifier::rlimit(100)]
    pub fn shade_hit(&self, comps: &Comp, max_depth: i32) -> (r: Color)
        requires
            world_wf(self@),
            comps.object_id < self@.objects.len(),
        ensures
            r == spec_shade_hit(self@, *comps, max_depth as int),
        decreases spec_depth_rank(max_depth as int), 2int, 0int,
    {
        proof {
            reveal(spec_color_at);
        }
        let object = self.get_object(comps.object_id).unwrap();
        let mut surface: Color = Color::new(0, 0, 0);
        let mut reflected: Color = Color::new(0, 0, 0);
        let mut refracted: Color = Color::new(0, 0, 0);
        let num_lights: usize = self.lights.len();
        let mut li: usize = 0;
        while li < num_lights
            invariant
                world_wf(self@),
                comps.object_id < self@.objects.len(),
                object@ == self@.objects[comps.object_id as int],
                num_lights == self@.lights.len(),
                li <= num_lights,
                surface == spec_shade_parts(self@, *comps, max_depth as int, li as int).0,
                reflected == spec_shade_parts(self@, *comps, max_depth as int, li as int).1,
                refracted == spec_shade_parts(self@, *comps, max_depth as int, li as int).2,
            decreases num_lights - li,
        {
            proof {
                reveal(spec_color_at);
            }
            let light = &self.lights[li];
            let shadowed: bool = self.is_shadowed(comps.over_point, light);
            proof {
                assert(shape_wf(self@.objects[comps.object_id as int]));
            }
            surface = surface.add(
                &object.material.lighting(
                    light,
                    object,
                    comps.point,
                    comps.eyev,
                    comps.normalv,
                    shadowed,
                ),
            );
            let mut curr_reflected: Color = self.reflected_color(comps, max_depth);
            let mut curr_refracted: Color = self.refracted_color(comps, max_depth);
            if object.material.reflective > 0 && object.material.transparency > 0 {
                let reflectance: i64 = Self::schlick(comps);
                curr_reflected = curr_reflected.mul_scalar(reflectance);
                curr_refracted = curr_refracted.mul_scalar(fx_sub(FX_ONE, reflectance));
            }
            reflected = reflected.add(&curr_reflected);
            refracted = refracted.add(&curr_refracted);
            li = li + 1;
        }
        surface.add(&reflected).add(&refracted)
    }

    /// The reflected contribution for a prepared hit.
    pub fn reflected_color(&self, comps: &Comp, max_depth: i32) -> (r: Color)
        requires
            world_wf(self@),
            comps.object_id < self@.objects.len(),
        ensures
            r == spec_reflected_color(self@, *comps, max_depth as int),
        decreases spec_depth_rank(max_depth as int), 0int, 0int,
    {
        proof {
            reveal(spec_color_at);
        }
        if max_depth <= 0 {
            return Color::new(0, 0, 0);
        }
        let object = self.get_object(comps.object_id).unwrap();
        if near_equal(object.material.reflective, 0) {
            return Color::new(0, 0, 0);
        }
        let reflect_ray = Ray::new(comps.over_point, comps.reflectv);
        let color: Color = self.color_at(&reflect_ray, max_depth - 1);
        color.mul_scalar(object.material.reflective)
    }

    /// The refracted contribution for a prepared hit.
    pub fn refracted_color(&self, comps: &Comp, remaining: i32) -> (r: Color)
        requires
            world_wf(self@),
            comps.object_id < self@.objects.len(),
        ensures
            r == spec_refracted_color(self@, *comps, remaining as int),
        decreases spec_depth_rank(remaining as int), 0int, 0int,
    {
        proof {
            reveal(spec_color_at);
        }
        if remaining <= 0 {
            return Color::new(0, 0, 0);
        }
        let n_ratio: i64 = fx_div(comps.n1, comps.n2);
        let cos_i: i64 = comps.eyev.dot_product(&comps.normalv);
        let sin2_t: i64 = fx_mul(fx_mul(n_ratio, n_ratio), fx_sub(FX_ONE, fx_mul(cos_i, cos_i)));
        if sin2_t > FX_ONE {
            return Color::new(0, 0, 0);
        }
        let object = self.get_object(comps.object_id).unwrap();
        if near_equal(object.material.transparency, 0) {
            return Color::new(0, 0, 0);
        }
        let cos_t: i64 = fx_sqrt(fx_sub(FX_ONE, sin2_t));
        let direction: Tuple = comps.normalv.mul_scalar(fx_sub(fx_mul(n_ratio, cos_i), cos_t)).sub(
            &comps.eyev.mul_scalar(n_ratio),
        );
        let refract_ray = Ray::new(comps.under_point, direction);
        self.color_at(&refract_ray, remaining - 1).mul_scalar(object.material.transparency)
    }

    /// The color seen along a ray, with the given recursion budget for
    /// reflection and refraction.
    pub fn color_at(&self, r: &Ray, max_depth: i32) -> (c: Color)
        requires
            world_wf(self@),
        ensures
            c == spec_color_at(self@, *r, max_depth as int),
        decreases spec_depth_rank(max_depth as int), 3int, 0int,
    {
        proof {
            reveal(spec_color_at);
        }
        let mut ix = self.intersect(r);
        let h = ix.hit();
        if h.is_some() {
            let comps: Comp = ix.prepare_computation(ix.hit_index(), r, self);
            self.shade_hit(&comps, max_depth)
        } else {
            Color::new(0, 0, 0)
        }
    }
}

impl Default for World {
    /// The reference scene of `default_world`.
    fn default() -> (r: Self)
        ensures
            r@.objects =~= spec_default_world().objects,
            r@.lights =~= spec_default_world().lights,
    {
        World::default_world()
    }
}

} // verus!
