//! Materials and the material registry.
//!
//! Geometry nodes carry only an opaque `MaterialIndex` into an append-only
//! `MaterialList`, which decouples the shape tree from material storage. A
//! hit whose tag cannot be resolved shades with the loud magenta default, so
//! malformed scenes are visually obvious instead of crashing.

use vstd::prelude::*;

verus! {

use crate::color::Color;
use crate::fixed::{Fx, SCALE};
use crate::ray::Ray;
use crate::sdf::{Sdf, estimate_normal, normal_v};
use crate::vec3::{V3, Point3, unit_vv, reflect_v};

/// An opaque handle into a `MaterialList`.
#[derive(Clone, Copy, Debug, PartialEq, Eq, Structural)]
pub struct MaterialIndex(pub usize);

/// Mathematical view of a material.
pub struct MaterialV {
    pub specular: V3,
    pub diffuse: V3,
    pub ambient: V3,
    pub shininess: nat,
    pub reflectivity: int,
}

/// The diagnostic default material: magenta everywhere, shininess one, not
/// reflective.
pub open spec fn default_material_v() -> MaterialV {
    MaterialV {
        specular: V3 { x: SCALE as int, y: 0, z: SCALE as int },
        diffuse: V3 { x: SCALE as int, y: 0, z: SCALE as int },
        ambient: V3 { x: SCALE as int, y: 0, z: SCALE as int },
        shininess: 1,
        reflectivity: 0,
    }
}

/// Per-material reflectances for the Phong model, a shininess exponent, and a
/// mirror-reflection coefficient.
#[derive(Clone, Copy, Debug, PartialEq, Eq, Structural)]
pub struct Material {
    pub specular: Color,
    pub diffuse: Color,
    pub ambient: Color,
    pub shininess: u32,
    pub reflectivity: Fx,
}

impl View for Material {
    type V = MaterialV;

    open spec fn view(&self) -> MaterialV {
        MaterialV {
            specular: self.specular@,
            diffuse: self.diffuse@,
            ambient: self.ambient@,
            shininess: self.shininess as nat,
            reflectivity: self.reflectivity.val(),
        }
    }
}

impl Material {
    pub fn new(specular: Color, diffuse: Color, ambient: Color, shininess: u32, reflectivity: Fx)
        -> (m: Material)
        ensures
            m@ == (MaterialV {
                specular: specular@,
                diffuse: diffuse@,
                ambient: ambient@,
                shininess: shininess as nat,
                reflectivity: reflectivity.val(),
            }),
    {
        Material { specular, diffuse, ambient, shininess, reflectivity }
    }

    /// A perfect mirror: black in every Phong term, full reflectivity.
    pub fn pure_reflective() -> (m: Material)
        ensures
            m@.specular == crate::vec3::v3_zero(),
            m@.diffuse == crate::vec3::v3_zero(),
            m@.ambient == crate::vec3::v3_zero(),
            m@.shininess == 0,
            m@.reflectivity == SCALE as int,
    {
        Material::new(Color::black(), Color::black(), Color::black(), 0, Fx::one())
    }

    pub fn specular(&self) -> (c: Color)
        ensures
            c@ == self@.specular,
    {
        self.specular
    }

    pub fn diffuse(&self) -> (c: Color)
        ensures
            c@ == self@.diffuse,
    {
        self.diffuse
    }

    pub fn ambient(&self) -> (c: Color)
        ensures
            c@ == self@.ambient,
    {
        self.ambient
    }

    pub fn shininess(&self) -> (s: u32)
        ensures
            s as nat == self@.shininess,
    {
        self.shininess
    }

    pub fn reflectivity(&self) -> (r: Fx)
        ensures
            r.val() == self@.reflectivity,
    {
        self.reflectivity
    }

    /// The mirror-reflected child ray spawned at a hit point: the incoming
    /// direction reflected about the estimated surface normal.
    pub fn child_ray<S: Sdf>(&self, sdf: &S, p: &Point3, incoming: &Ray) -> (r: Option<Ray>)
        ensures
            match r {
                Some(child) => {
                    &&& child.origin == *p
                    &&& child.direction@ == unit_vv(
                        reflect_v(incoming.direction@, normal_v(*sdf, p@)))
                },
                None => false,
            },
    {
        let normal = estimate_normal(sdf, p);
        let reflected_direction = incoming.direction.as_vec().reflect(normal);
        Some(Ray::new_unnormalized(*p, reflected_direction))
    }
}

impl Default for Material {
    /// The diagnostic magenta material.
    fn default() -> (m: Material)
        ensures
            m@ == default_material_v(),
    {
        Material::new(Color::purple(), Color::purple(), Color::purple(), 1, Fx::zero())
    }
}

/// An insertion-ordered, append-only registry of materials.
#[derive(Clone, Debug)]
pub struct MaterialList {
    mats: Vec<Material>,
}

impl View for MaterialList {
    type V = Seq<Material>;

    closed spec fn view(&self) -> Seq<Material> {
        self.mats@
    }
}

impl MaterialList {
    pub fn new() -> (r: MaterialList)
        ensures
            r@ == Seq::<Material>::empty(),
    {
        MaterialList { mats: Vec::new() }
    }

    /// Append a material; the returned handle resolves to it forever after.
    pub fn insert(&mut self, m: Material) -> (idx: MaterialIndex)
        ensures
            final(self)@ == old(self)@.push(m),
            idx.0 == old(self)@.len(),
    {
        let idx = MaterialIndex(self.mats.len());
        self.mats.push(m);
        idx
    }

    /// Look a handle up: `Some` exactly when the handle is in range.
    pub fn get(&self, idx: MaterialIndex) -> (r: Option<&Material>)
        ensures
            match r {
                Some(m) => idx.0 < self@.len() && *m == self@[idx.0 as int],
                None => idx.0 >= self@.len(),
            },
    {
        if idx.0 < self.mats.len() {
            Some(&self.mats[idx.0])
        } else {
            None
        }
    }
}

impl Default for MaterialList {
    fn default() -> (r: MaterialList)
        ensures
            r@ == Seq::<Material>::empty(),
    {
        MaterialList::new()
    }
}

} // verus!
