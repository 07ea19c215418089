//! Geometric primitives: unit spheres and the XZ plane, each carrying a
//! transform and a material. Intersection works in the shape's local space
//! by applying the inverse of its transform to the incoming ray.

use vstd::prelude::*;
use crate::color::Color;
use crate::fx::{fx_mul, fx_add, fx_sub, fx_neg, fx_div, fx_sqrt, fx_abs, EPSILON, FX_ONE};
use crate::intersection::Intersection;
use crate::material::{Material, MaterialView, spec_default_material};
use crate::matrix::{mat4_invertible, spec_identity, spec_inverse, spec_transpose, spec_tuple_mul,
    spec_mat_mul};
use crate::pattern::Pattern;
use crate::ray::Ray;
use crate::transform::{
    Transform, transform_wf, transform_invertible, spec_translation, spec_scaling,
    spec_rotation_x, spec_rotation_y, spec_rotation_z, spec_shearing,
};
use crate::tuple::{Tuple, spec_sub, spec_dot, spec_normalize};

verus! {

#[derive(Clone, Copy, Debug, PartialEq, Eq, Structural)]
pub enum ShapeType {
    Sphere,
    Plane,
}

#[derive(Debug)]
pub struct Shape {
    pub material: Material,
    pub transform: Transform,
    pub id: Option<usize>,
    pub kind: ShapeType,
    pub has_shadow: bool,
}

pub ghost struct ShapeView {
    pub material: MaterialView,
    pub transform: Seq<Seq<i64>>,
    pub id: Option<usize>,
    pub kind: ShapeType,
    pub has_shadow: bool,
}

impl View for Shape {
    type V = ShapeView;

    open spec fn view(&self) -> ShapeView {
        ShapeView {
            material: self.material@,
            transform: self.transform.matrix@,
            id: self.id,
            kind: self.kind,
            has_shadow: self.has_shadow,
        }
    }
}

/// A shape whose transform (and pattern transform, if any) can be
/// inverted, as intersection and shading require.
pub open spec fn shape_wf(s: ShapeView) -> bool {
    mat4_invertible(s.transform) && match s.material.pattern {
        Some(p) => mat4_invertible(p.transform),
        None => true,
    }
}

/// Intersections of a ray with a unit sphere at the local origin: the ray
/// moves into local space through the inverse transform, then the
/// quadratic `|O + tD|^2 = 1` is solved; a negative discriminant means no
/// hit, else the two roots in ascending order.
pub open spec fn spec_sphere_intersect(t: Seq<Seq<i64>>, ray: Ray, object_id: usize) -> Seq<
    Intersection,
> {
    let inv = spec_inverse(t);
    let origin = spec_tuple_mul(inv, ray.origin);
    let direction = spec_tuple_mul(inv, ray.direction);
    let sphere_to_ray = spec_sub(origin, Tuple { x: 0i64, y: 0i64, z: 0i64, w: FX_ONE });
    let a = spec_dot(direction, direction);
    let b = fx_mul(200_000_000, spec_dot(direction, sphere_to_ray));
    let c = fx_sub(spec_dot(sphere_to_ray, sphere_to_ray), FX_ONE);
    let discriminant = fx_sub(fx_mul(b, b), fx_mul(fx_mul(400_000_000, a), c));
    if discriminant < 0 {
        Seq::empty()
    } else {
        let t1 = fx_div(fx_sub(fx_neg(b), fx_sqrt(discriminant)), fx_mul(200_000_000, a));
        let t2 = fx_div(fx_add(fx_neg(b), fx_sqrt(discriminant)), fx_mul(200_000_000, a));
        if t2 < t1 {
            seq![Intersection { t: t2, object_id }, Intersection { t: t1, object_id }]
        } else {
            seq![Intersection { t: t1, object_id }, Intersection { t: t2, object_id }]
        }
    }
}

/// Intersections of a ray with the local XZ plane: empty when the local
/// ray is parallel (|direction.y| below EPSILON), else the single root
/// `-origin.y / direction.y`.
pub open spec fn spec_plane_intersect(t: Seq<Seq<i64>>, ray: Ray, object_id: usize) -> Seq<
    Intersection,
> {
    let inv = spec_inverse(t);
    let origin = spec_tuple_mul(inv, ray.origin);
    let direction = spec_tuple_mul(inv, ray.direction);
    if fx_abs(direction.y) < EPSILON {
        Seq::empty()
    } else {
        seq![Intersection { t: fx_div(fx_neg(origin.y), direction.y), object_id }]
    }
}

/// The surface normal at a world-space point: the local normal (the local
/// point for a sphere, the constant Y axis for a plane) carried back by
/// the inverse-transpose of the shape's transform, with `w` forced to 0,
/// normalized.
pub open spec fn spec_normal_at(s: ShapeView, point: Tuple) -> Tuple {
    let inv = spec_inverse(s.transform);
    let object_normal = match s.kind {
        ShapeType::Sphere => spec_sub(
            spec_tuple_mul(inv, point),
            Tuple { x: 0i64, y: 0i64, z: 0i64, w: FX_ONE },
        ),
        ShapeType::Plane => Tuple { x: 0i64, y: FX_ONE, z: 0i64, w: 0i64 },
    };
    let world_normal = spec_tuple_mul(spec_transpose(inv), object_normal);
    spec_normalize(Tuple { w: 0i64, ..world_normal })
}

pub open spec fn spec_shape_intersect(s: ShapeView, ray: Ray) -> Option<Seq<Intersection>> {
    match s.id {
        Some(id) => Some(
            match s.kind {
                ShapeType::Sphere => spec_sphere_intersect(s.transform, ray, id),
                ShapeType::Plane => spec_plane_intersect(s.transform, ray, id),
            },
        ),
        None => None,
    }
}

#[verifier::rlimit(100)]
fn sphere_intersect(transform: &Transform, ray: &Ray, object_id: usize) -> (r: Vec<Intersection>)
    requires
        transform_invertible(*transform),
    ensures
        r@ == spec_sphere_intersect(transform.matrix@, *ray, object_id),
        forall|k: int| 0 <= k < r@.len() ==> (#[trigger] r@[k]).object_id == object_id,
{
    let transformed_ray: Ray = transform.inverse().transform_ray(ray);
    let sphere_to_ray: Tuple = transformed_ray.origin.sub(&Tuple::point(0, 0, 0));
    let a: i64 = transformed_ray.direction.dot_product(&transformed_ray.direction);
    let b: i64 = fx_mul(200_000_000, transformed_ray.direction.dot_product(&sphere_to_ray));
    let c: i64 = fx_sub(sphere_to_ray.dot_product(&sphere_to_ray), FX_ONE);
    let discriminant: i64 = fx_sub(fx_mul(b, b), fx_mul(fx_mul(400_000_000, a), c));
    let mut result: Vec<Intersection> = Vec::new();
    if discriminant < 0 {
        proof {
            assert(result@ =~= spec_sphere_intersect(transform.matrix@, *ray, object_id));
        }
        return result;
    }
    let root: i64 = fx_sqrt(discriminant);
    let t1: i64 = fx_div(fx_sub(fx_neg(b), root), fx_mul(200_000_000, a));
    let t2: i64 = fx_div(fx_add(fx_neg(b), root), fx_mul(200_000_000, a));
    if t2 < t1 {
        result.push(Intersection::new(t2, object_id));
        result.push(Intersection::new(t1, object_id));
    } else {
        result.push(Intersection::new(t1, object_id));
        result.push(Intersection::new(t2, object_id));
    }
    proof {
        assert(result@ =~= spec_sphere_intersect(transform.matrix@, *ray, object_id));
    }
    result
}

fn plane_intersect(transform: &Transform, ray: &Ray, object_id: usize) -> (r: Vec<Intersection>)
    requires
        transform_invertible(*transform),
    ensures
        r@ == spec_plane_intersect(transform.matrix@, *ray, object_id),
        forall|k: int| 0 <= k < r@.len() ==> (#[trigger] r@[k]).object_id == object_id,
{
    let transformed_ray: Ray = transform.inverse().transform_ray(ray);
    let mut result: Vec<Intersection> = Vec::new();
    if fx_abs(transformed_ray.direction.y) < EPSILON {
        proof {
            assert(result@ =~= spec_plane_intersect(transform.matrix@, *ray, object_id));
        }
        return result;
    }
    let t: i64 = fx_div(fx_neg(transformed_ray.origin.y), transformed_ray.direction.y);
    result.push(Intersection::new(t, object_id));
    proof {
        assert(result@ =~= spec_plane_intersect(transform.matrix@, *ray, object_id));
    }
    result
}

impl Shape {
    pub fn sphere() -> (r: Shape)
        ensures
            r@ == (ShapeView {
                material: spec_default_material(),
                transform: spec_identity(),
                id: None::<usize>,
                kind: ShapeType::Sphere,
                has_shadow: true,
            }),
    {
        Shape {
            material: Material::new(),
            transform: Transform::new(),
            id: None,
            kind: ShapeType::Sphere,
            has_shadow: true,
        }
    }

    pub fn plane() -> (r: Shape)
        ensures
            r@ == (ShapeView {
                material: spec_default_material(),
                transform: spec_identity(),
                id: None::<usize>,
                kind: ShapeType::Plane,
                has_shadow: true,
            }),
    {
        Shape {
            material: Material::new(),
            transform: Transform::new(),
            id: None,
            kind: ShapeType::Plane,
            has_shadow: true,
        }
    }

    /// A unit sphere made of glass: fully transparent with refractive
    /// index 1.5.
    pub fn glass_sphere() -> (r: Shape)
        ensures
            r@ == (ShapeView {
                material: MaterialView {
                    transparency: FX_ONE,
                    refractive_index: 150_000_000i64,
                    ..spec_default_material()
                },
                transform: spec_identity(),
                id: None::<usize>,
                kind: ShapeType::Sphere,
                has_shadow: true,
            }),
    {
        let mut s: Shape = Shape::sphere();
        s.set_transparency(FX_ONE);
        s.set_refractive_index(150_000_000);
        s
    }

    pub fn set_id(&mut self, id: usize)
        ensures
            final(self)@ == (ShapeView { id: Some(id), ..old(self)@ }),
    {
        self.id = Some(id);
    }

    pub fn set_pattern(&mut self, pattern: &Pattern)
        ensures
            final(self)@ == (ShapeView {
                material: MaterialView { pattern: Some(pattern@), ..old(self)@.material },
                ..old(self)@
            }),
    {
        self.material.set_pattern(pattern);
    }

    pub fn material(&self) -> (r: &Material)
        ensures
            r@ == self@.material,
    {
        &self.material
    }

    pub fn transform(&self) -> (r: &Transform)
        ensures
            r.matrix@ == self@.transform,
    {
        &self.transform
    }

    pub fn has_shadow(&self) -> (r: bool)
        ensures
            r == self@.has_shadow,
    {
        self.has_shadow
    }

    /// Shapes cast shadows unless they opt out here.
    pub fn set_has_shadow(&mut self, v: bool)
        ensures
            final(self)@ == (ShapeView { has_shadow: v, ..old(self)@ }),
    {
        self.has_shadow = v;
    }

    pub fn set_color(&mut self, c: Color)
        ensures
            final(self)@ == (ShapeView {
                material: MaterialView { color: c, ..old(self)@.material },
                ..old(self)@
            }),
    {
        self.material.color = c;
    }

    pub fn set_ambient(&mut self, c: i64)
        ensures
            final(self)@ == (ShapeView {
                material: MaterialView { ambient: c, ..old(self)@.material },
                ..old(self)@
            }),
    {
        self.material.ambient = c;
    }

    pub fn set_specular(&mut self, c: i64)
        ensures
            final(self)@ == (ShapeView {
                material: MaterialView { specular: c, ..old(self)@.material },
                ..old(self)@
            }),
    {
        self.material.specular = c;
    }

    pub fn set_reflective(&mut self, c: i64)
        ensures
            final(self)@ == (ShapeView {
                material: MaterialView { reflective: c, ..old(self)@.material },
                ..old(self)@
            }),
    {
        self.material.reflective = c;
    }

    pub fn set_diffuse(&mut self, c: i64)
        ensures
            final(self)@ == (ShapeView {
                material: MaterialView { diffuse: c, ..old(self)@.material },
                ..old(self)@
            }),
    {
        self.material.diffuse = c;
    }

    pub fn set_refractive_index(&mut self, c: i64)
        ensures
            final(self)@ == (ShapeView {
                material: MaterialView { refractive_index: c, ..old(self)@.material },
                ..old(self)@
            }),
    {
        self.material.refractive_index = c;
    }

    pub fn set_transparency(&mut self, c: i64)
        ensures
            final(self)@ == (ShapeView {
                material: MaterialView { transparency: c, ..old(self)@.material },
                ..old(self)@
            }),
    {
        self.material.transparency = c;
    }

    pub fn scale(&mut self, x: i64, y: i64, z: i64)
        requires
            transform_wf(old(self).transform),
        ensures
            final(self)@ == (ShapeView {
                transform: spec_mat_mul(spec_scaling(x, y, z), old(self)@.transform),
                ..old(self)@
            }),
            transform_wf(final(self).transform),
    {
        let t: Transform = self.transform.scale(x, y, z);
        self.transform = t;
    }

    pub fn translate(&mut self, x: i64, y: i64, z: i64)
        requires
            transform_wf(old(self).transform),
        ensures
            final(self)@ == (ShapeView {
                transform: spec_mat_mul(spec_translation(x, y, z), old(self)@.transform),
                ..old(self)@
            }),
            transform_wf(final(self).transform),
    {
        let t: Transform = self.transform.translate(x, y, z);
        self.transform = t;
    }

    pub fn rotate_x(&mut self, sin_r: i64, cos_r: i64)
        requires
            transform_wf(old(self).transform),
        ensures
            final(self)@ == (ShapeView {
                transform: spec_mat_mul(spec_rotation_x(sin_r, cos_r), old(self)@.transform),
                ..old(self)@
            }),
            transform_wf(final(self).transform),
    {
        let t: Transform = self.transform.rotate_x(sin_r, cos_r);
        self.transform = t;
    }

    pub fn rotate_y(&mut self, sin_r: i64, cos_r: i64)
        requires
            transform_wf(old(self).transform),
        ensures
            final(self)@ == (ShapeView {
                transform: spec_mat_mul(spec_rotation_y(sin_r, cos_r), old(self)@.transform),
                ..old(self)@
            }),
            transform_wf(final(self).transform),
    {
        let t: Transform = self.transform.rotate_y(sin_r, cos_r);
        self.transform = t;
    }

    pub fn rotate_z(&mut self, sin_r: i64, cos_r: i64)
        requires
            transform_wf(old(self).transform),
        ensures
            final(self)@ == (ShapeView {
                transform: spec_mat_mul(spec_rotation_z(sin_r, cos_r), old(self)@.transform),
                ..old(self)@
            }),
            transform_wf(final(self).transform),
    {
        let t: Transform = self.transform.rotate_z(sin_r, cos_r);
        self.transform = t;
    }

    pub fn shear(&mut self, xy: i64, xz: i64, yx: i64, yz: i64, zx: i64, zy: i64)
        requires
            transform_wf(old(self).transform),
        ensures
            final(self)@ == (ShapeView {
                transform: spec_mat_mul(
                    spec_shearing(xy, xz, yx, yz, zx, zy),
                    old(self)@.transform,
                ),
                ..old(self)@
            }),
            transform_wf(final(self).transform),
    {
        let t: Transform = self.transform.shear(xy, xz, yx, yz, zx, zy);
        self.transform = t;
    }

    pub fn normal_at(&self, point: Tuple) -> (r: Tuple)
        requires
            transform_invertible(self.transform),
        ensures
            r == spec_normal_at(self@, point),
    {
        let t: Transform = self.transform.inverse();
        let object_normal: Tuple = match self.kind {
            ShapeType::Sphere => {
                let object_point: Tuple = t.transform(&point);
                object_point.sub(&Tuple::point(0, 0, 0))
            },
            ShapeType::Plane => Tuple::vector(0, FX_ONE, 0),
        };
        let tt: Transform = t.transpose();
        let mut world_normal: Tuple = tt.transform(&object_normal);
        world_normal.w = 0;
        world_normal.normalize()
    }

    pub fn intersect(&self, ray: &Ray) -> (r: Option<Vec<Intersection>>)
        requires
            transform_invertible(self.transform),
        ensures
            match r {
                Some(v) => {
                    &&& spec_shape_intersect(self@, *ray) == Some(v@)
                    &&& match self.id {
                        Some(id) => forall|k: int|
                            0 <= k < v@.len() ==> (#[trigger] v@[k]).object_id == id,
                        None => false,
                    }
                },
                None => spec_shape_intersect(self@, *ray) == None::<Seq<Intersection>>,
            },
    {
        if let Some(id) = self.id {
            let hits: Vec<Intersection> = match self.kind {
                ShapeType::Sphere => sphere_intersect(&self.transform, ray, id),
                ShapeType::Plane => plane_intersect(&self.transform, ray, id),
            };
            Some(hits)
        } else {
            None
        }
    }
}

} // verus!
