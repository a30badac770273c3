//! Materials, and what each of them decides when a path reaches it.
use vstd::prelude::*;
use crate::color::Color;

verus! {

/// Where a light path stands between two bounces.
#[derive(Clone, Copy, Debug, PartialEq, Eq, Structural)]
pub struct PathState {
    /// The object the ray has just left, which the next intersection query
    /// skips; `None` for a ray that starts at the camera.
    pub ignore_id: Option<u64>,
    /// How many more bounces the path may take.
    pub bounces_left: u32,
}

/// The bounce budget of a path where none is configured.
pub const DEFAULT_MAX_BOUNCES: u32 = 16;

impl PathState {
    /// The state of a path that starts at the camera with `max_bounces` to
    /// spend: no object is passed over.
    pub fn primary(max_bounces: u32) -> (state: PathState)
        ensures
            state == (PathState { ignore_id: None, bounces_left: max_bounces }),
    {
        PathState { ignore_id: None, bounces_left: max_bounces }
    }
}

/// How a reflective material picks the direction of the next ray.
#[derive(Clone, Copy, Debug, PartialEq, Eq, Structural)]
pub enum Scatter {
    /// Uniform-angle scattering about the surface normal.
    Diffuse,
    /// Specular reflection about the surface normal.
    Mirror,
}

/// What happens to a light path at the end of one ray.
#[derive(Clone, Copy, Debug, PartialEq, Eq, Structural)]
pub enum PathStep {
    /// The ray met nothing: the path ends with the background's radiance
    /// for the ray's direction.
    Escaped,
    /// The ray met an emitter: the path ends with this radiance.
    Emitted(Color),
    /// The ray met a reflective surface with no bounce left: the path ends
    /// and contributes nothing.
    Exhausted,
    /// The ray met a reflective surface: the path goes on with a ray that
    /// `lobe` picks, in state `next`, and the radiance that comes back is
    /// multiplied by `tint` and by the grazing-angle factor.
    Bounce { lobe: Scatter, tint: Color, next: PathState },
}

/// The step a reflective material takes: a bounce while the budget lasts.
pub open spec fn reflect_step(lobe: Scatter, tint: Color, object_id: u64, bounces_left: u32) -> PathStep {
    if bounces_left == 0 {
        PathStep::Exhausted
    } else {
        PathStep::Bounce {
            lobe,
            tint,
            next: PathState { ignore_id: Some(object_id), bounces_left: (bounces_left - 1) as u32 },
        }
    }
}

fn reflect(lobe: Scatter, tint: Color, object_id: u64, bounces_left: u32) -> (step: PathStep)
    ensures
        step == reflect_step(lobe, tint, object_id, bounces_left),
{
    if bounces_left == 0 {
        PathStep::Exhausted
    } else {
        let left: u32 = bounces_left - 1;
        PathStep::Bounce { lobe, tint, next: PathState { ignore_id: Some(object_id), bounces_left: left } }
    }
}

/// A matte material.
#[derive(Clone, Copy, Debug, PartialEq, Eq, Structural)]
pub struct DiffuseShader {
    pub color: Color,
}

impl DiffuseShader {
    pub fn new(color: Color) -> (s: DiffuseShader)
        ensures
            s.color == color,
    {
        DiffuseShader { color }
    }

    /// The step taken on the surface of object `object_id`: a diffuse bounce
    /// tinted by the material's colour, or the end of the path when no
    /// bounce is left.
    pub fn apply(&self, object_id: u64, bounces_left: u32) -> (step: PathStep)
        ensures
            step == reflect_step(Scatter::Diffuse, self.color, object_id, bounces_left),
    {
        reflect(Scatter::Diffuse, self.color, object_id, bounces_left)
    }
}

/// A perfectly specular material.
#[derive(Clone, Copy, Debug, PartialEq, Eq, Structural)]
pub struct MirrorShader {
    pub color: Color,
}

impl MirrorShader {
    pub fn new(color: Color) -> (s: MirrorShader)
        ensures
            s.color == color,
    {
        MirrorShader { color }
    }

    /// The step taken on the surface of object `object_id`: a mirror bounce
    /// tinted by the material's colour, or the end of the path when no
    /// bounce is left.
    pub fn apply(&self, object_id: u64, bounces_left: u32) -> (step: PathStep)
        ensures
            step == reflect_step(Scatter::Mirror, self.color, object_id, bounces_left),
    {
        reflect(Scatter::Mirror, self.color, object_id, bounces_left)
    }
}

/// A light source.
#[derive(Clone, Copy, Debug, PartialEq, Eq, Structural)]
pub struct EmissionShader {
    pub color: Color,
}

impl EmissionShader {
    pub fn new(color: Color) -> (s: EmissionShader)
        ensures
            s.color == color,
    {
        EmissionShader { color }
    }

    /// An emitter ends the path with its own colour, whatever the budget.
    pub fn apply(&self) -> (step: PathStep)
        ensures
            step == PathStep::Emitted(self.color),
    {
        PathStep::Emitted(self.color)
    }
}

/// The material of an object.
#[derive(Clone, Copy, Debug, PartialEq, Eq, Structural)]
pub enum Shader {
    Diffuse(DiffuseShader),
    Mirror(MirrorShader),
    Emission(EmissionShader),
}

impl Shader {
    /// What the material decides, as a function of the object hit and of the
    /// bounces left.
    pub open spec fn step(self, object_id: u64, bounces_left: u32) -> PathStep {
        match self {
            Shader::Diffuse(s) => reflect_step(Scatter::Diffuse, s.color, object_id, bounces_left),
            Shader::Mirror(s) => reflect_step(Scatter::Mirror, s.color, object_id, bounces_left),
            Shader::Emission(s) => PathStep::Emitted(s.color),
        }
    }

    /// Dispatches to the material's own `apply`.
    pub fn apply(&self, object_id: u64, bounces_left: u32) -> (step: PathStep)
        ensures
            step == self.step(object_id, bounces_left),
    {
        match self {
            Shader::Diffuse(s) => s.apply(object_id, bounces_left),
            Shader::Mirror(s) => s.apply(object_id, bounces_left),
            Shader::Emission(s) => s.apply(),
        }
    }
}

} // verus!
