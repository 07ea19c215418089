//! Surface materials and the Phong reflection model.

use vstd::prelude::*;
use crate::color::{Color, spec_color_add, spec_color_mul, spec_color_mul_scalar, spec_white};
use crate::fx::{fx_pow, spec_fx_pow, FX_ONE};
use crate::pattern::{Pattern, PatternView, spec_color_at_object};
use crate::point_light::PointLight;
use crate::shape::Shape;
use crate::transform::transform_invertible;
use crate::tuple::{Tuple, spec_sub, spec_neg, spec_normalize, spec_dot, spec_reflect};

verus! {

#[derive(Debug)]
pub struct Material {
    pub color: Color,
    pub ambient: i64,
    pub diffuse: i64,
    pub specular: i64,
    pub reflective: i64,
    pub shininess: i64,
    pub transparency: i64,
    pub refractive_index: i64,
    pub pattern: Option<Pattern>,
}

pub ghost struct MaterialView {
    pub color: Color,
    pub ambient: i64,
    pub diffuse: i64,
    pub specular: i64,
    pub reflective: i64,
    pub shininess: i64,
    pub transparency: i64,
    pub refractive_index: i64,
    pub pattern: Option<PatternView>,
}

impl View for Material {
    type V = MaterialView;

    open spec fn view(&self) -> MaterialView {
        MaterialView {
            color: self.color,
            ambient: self.ambient,
            diffuse: self.diffuse,
            specular: self.specular,
            reflective: self.reflective,
            shininess: self.shininess,
            transparency: self.transparency,
            refractive_index: self.refractive_index,
            pattern: match self.pattern {
                Some(p) => Some(p@),
                None => None,
            },
        }
    }
}

/// The stock material: white, mostly diffuse, no reflection, opaque,
/// vacuum refractive index.
pub open spec fn spec_default_material() -> MaterialView {
    MaterialView {
        color: spec_white(),
        ambient: 10_000_000i64,
        diffuse: 90_000_000i64,
        specular: 90_000_000i64,
        reflective: 0i64,
        shininess: 20_000_000_000i64,
        transparency: 0i64,
        refractive_index: FX_ONE,
        pattern: None,
    }
}

/// The whole-number specular exponent held in `shininess`.
pub open spec fn spec_shininess_exponent(s: i64) -> nat {
    if s <= 0 {
        0
    } else {
        ((s as int) / (FX_ONE as int)) as nat
    }
}

/// Phong lighting: ambient plus, when the light faces the surface and the
/// point is not shadowed, diffuse and specular contributions. The base
/// color comes from the material's pattern when it has one.
pub open spec fn spec_lighting(
    m: MaterialView,
    light: PointLight,
    obj_t: Seq<Seq<i64>>,
    position: Tuple,
    eye: Tuple,
    normal: Tuple,
    in_shadow: bool,
) -> Color {
    let effective_color = match m.pattern {
        Some(p) => spec_color_mul(spec_color_at_object(p, obj_t, position), light.intensity),
        None => spec_color_mul(m.color, light.intensity),
    };
    let lightv = spec_normalize(spec_sub(light.position, position));
    let ambient = spec_color_mul_scalar(effective_color, m.ambient);
    let light_dot_normal = spec_dot(lightv, normal);
    let black = Color { red: 0i64, blue: 0i64, green: 0i64 };
    let diffuse = if light_dot_normal >= 0 && !in_shadow {
        spec_color_mul_scalar(spec_color_mul_scalar(effective_color, m.diffuse), light_dot_normal)
    } else {
        black
    };
    let specular = if light_dot_normal >= 0 && !in_shadow {
        let reflect = spec_reflect(spec_neg(lightv), normal);
        let reflect_dot_eye = spec_dot(reflect, eye);
        if reflect_dot_eye > 0 {
            let factor = spec_fx_pow(reflect_dot_eye, spec_shininess_exponent(m.shininess));
            spec_color_mul_scalar(spec_color_mul_scalar(light.intensity, m.specular), factor)
        } else {
            black
        }
    } else {
        black
    };
    spec_color_add(spec_color_add(ambient, diffuse), specular)
}

impl Material {
    pub fn new() -> (r: Material)
        ensures
            r@ == spec_default_material(),
    {
        Material {
            color: Color::white(),
            ambient: 10_000_000,
            diffuse: 90_000_000,
            specular: 90_000_000,
            reflective: 0,
            shininess: 20_000_000_000,
            transparency: 0,
            refractive_index: FX_ONE,
            pattern: None,
        }
    }

    pub fn set_pattern(&mut self, p: &Pattern)
        ensures
            final(self)@ == (MaterialView { pattern: Some(p@), ..old(self)@ }),
    {
        self.pattern = Some(p.clone());
    }

    pub fn lighting(
        &self,
        light: &PointLight,
        object: &Shape,
        position: Tuple,
        eye: Tuple,
        normal: Tuple,
        in_shadow: bool,
    ) -> (r: Color)
        requires
            transform_invertible(object.transform),
            match self.pattern {
                Some(p) => transform_invertible(p.transform),
                None => true,
            },
        ensures
            r == spec_lighting(
                self@,
                *light,
                object.transform.matrix@,
                position,
                eye,
                normal,
                in_shadow,
            ),
    {
        let mut effective_color: Color = self.color.mul_color(&light.intensity);
        if let Some(pattern) = &self.pattern {
            effective_color = pattern.color_at_object(object, position).mul_color(
                &light.intensity,
            );
        }
        let lightv: Tuple = light.position.sub(&position).normalize();
        let ambient: Color = effective_color.mul_scalar(self.ambient);
        let light_dot_normal: i64 = lightv.dot_product(&normal);
        let mut diffuse: Color = Color::new(0, 0, 0);
        let mut specular: Color = Color::new(0, 0, 0);
        if light_dot_normal >= 0 && !in_shadow {
            diffuse = effective_color.mul_scalar(self.diffuse).mul_scalar(light_dot_normal);
            let reflect: Tuple = lightv.neg().reflect(&normal);
            let reflect_dot_eye: i64 = reflect.dot_product(&eye);
            if reflect_dot_eye > 0 {
                let e: u64 = if self.shininess <= 0 {
                    0
                } else {
                    (self.shininess as u64) / (FX_ONE as u64)
                };
                let factor: i64 = fx_pow(reflect_dot_eye, e);
                specular = light.intensity.mul_scalar(self.specular).mul_scalar(factor);
            }
        }
        ambient.add(&diffuse).add(&specular)
    }
}

} // verus!
