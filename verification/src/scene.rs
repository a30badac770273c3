//! The scene: its objects, its background, and the two decisions a light
//! path needs from it.
use std::collections::HashMap;
use vstd::prelude::*;
use crate::binary64::is_positive;
use crate::binary64::positive;
use crate::color::Color;
use crate::color::Rgb8;
use crate::shader::PathState;
use crate::shader::PathStep;
use crate::shader::Shader;

verus! {

broadcast use vstd::std_specs::hash::group_hash_axioms;

/// A background that looks radiance up in an equirectangular panorama.
///
/// The panorama is an `image::RgbImage`. Verus does not look into it: what
/// the proofs know of it is what the three names below stand for, and they
/// take the contracts of the four private functions that call into `image`
/// as given.
#[verifier::external_body]
pub struct ImageSkyboxShader {
    image: image::RgbImage,
}

/// The number of pixel columns of the panorama, as `ImageBuffer::width` gives it.
pub uninterp spec fn panorama_width(sky: ImageSkyboxShader) -> nat;

/// The number of pixel rows of the panorama, as `ImageBuffer::height` gives it.
pub uninterp spec fn panorama_height(sky: ImageSkyboxShader) -> nat;

/// The samples that the panorama's buffer holds: three per pixel (red,
/// green, blue), pixels row by row from the top left.
pub uninterp spec fn panorama_samples(sky: ImageSkyboxShader) -> Seq<u8>;

/// A raw coordinate brought into `[0, extent - 1]`.
pub open spec fn clamp_coordinate(raw: u32, extent: nat) -> nat
    recommends
        extent > 0,
{
    if raw < extent {
        raw as nat
    } else {
        (extent - 1) as nat
    }
}

impl ImageSkyboxShader {
    /// The position in the sample buffer of the red sample of pixel `(x, y)`.
    pub open spec fn offset(self, x: nat, y: nat) -> int {
        (3 * (y * panorama_width(self) + x)) as int
    }

    /// The pixel in column `x` of row `y`.
    pub open spec fn texel(self, x: nat, y: nat) -> Rgb8 {
        Rgb8 {
            r: panorama_samples(self)[self.offset(x, y)],
            g: panorama_samples(self)[self.offset(x, y) + 1],
            b: panorama_samples(self)[self.offset(x, y) + 2],
        }
    }

    /// Whether the buffer holds three samples for every pixel, as it does in
    /// each panorama that `new` makes.
    pub open spec fn wf(self) -> bool {
        3 * panorama_width(self) * panorama_height(self) <= panorama_samples(self).len()
    }

    /// The samples of every pixel inside a well-formed panorama lie inside
    /// its buffer.
    pub proof fn lemma_texel_in_buffer(self, x: nat, y: nat)
        requires
            self.wf(),
            x < panorama_width(self),
            y < panorama_height(self),
        ensures
            0 <= self.offset(x, y),
            self.offset(x, y) + 2 < panorama_samples(self).len(),
    {
        let w = panorama_width(self) as int;
        let h = panorama_height(self) as int;
        assert(3 * (y * w + x) + 3 <= 3 * w * h) by (nonlinear_arith)
            requires
                0 <= x < w,
                0 <= y < h,
        ;
    }

    /// Calls `ImageBuffer::from_raw`. Assumed of it: it accepts the buffer
    /// exactly when it holds at least three samples for each of
    /// `width * height` pixels, and then keeps the dimensions and the buffer
    /// as they were given.
    #[verifier::external_body]
    fn from_raw(width: u32, height: u32, samples: Vec<u8>) -> (sky: Option<ImageSkyboxShader>)
        ensures
            sky is Some <==> 3 * width * height <= samples.len(),
            sky is Some ==> panorama_width(sky->0) == width,
            sky is Some ==> panorama_height(sky->0) == height,
            sky is Some ==> panorama_samples(sky->0) == samples@,
    {
        match image::ImageBuffer::from_raw(width, height, samples) {
            Some(image) => Some(ImageSkyboxShader { image }),
            None => None,
        }
    }

    /// Calls `ImageBuffer::width`. Assumed of it: it gives the width that
    /// the image was made with.
    #[verifier::external_body]
    fn raster_width(&self) -> (w: u32)
        ensures
            w == panorama_width(*self),
    {
        self.image.width()
    }

    /// Calls `ImageBuffer::height`. Assumed of it: it gives the height that
    /// the image was made with.
    #[verifier::external_body]
    fn raster_height(&self) -> (h: u32)
        ensures
            h == panorama_height(*self),
    {
        self.image.height()
    }

    /// Calls `ImageBuffer::get_pixel`, which panics outside the image.
    /// Assumed of it: inside the image it reads the three samples that start
    /// at `3 * (y * width + x)` in the buffer.
    #[verifier::external_body]
    fn get_pixel(&self, x: u32, y: u32) -> (p: Rgb8)
        requires
            x < panorama_width(*self),
            y < panorama_height(*self),
        ensures
            p == self.texel(x as nat, y as nat),
    {
        let pixel = self.image.get_pixel(x, y);
        Rgb8 { r: pixel.0[0], g: pixel.0[1], b: pixel.0[2] }
    }

    /// A panorama of `width` by `height` pixels over `samples`, or `None`
    /// when `samples` is too short for that many pixels.
    pub fn new(width: u32, height: u32, samples: Vec<u8>) -> (sky: Option<ImageSkyboxShader>)
        ensures
            sky is Some <==> 3 * width * height <= samples.len(),
            sky is Some ==> panorama_width(sky->0) == width,
            sky is Some ==> panorama_height(sky->0) == height,
            sky is Some ==> panorama_samples(sky->0) == samples@,
            sky is Some ==> (sky->0).wf(),
    {
        ImageSkyboxShader::from_raw(width, height, samples)
    }

    /// The panorama's width and height in pixels.
    pub fn dimensions(&self) -> (d: (u32, u32))
        ensures
            d.0 == panorama_width(*self),
            d.1 == panorama_height(*self),
    {
        (self.raster_width(), self.raster_height())
    }

    /// The pixel that a lookup at the raw panorama coordinates
    /// `(column, row)` reads: the nearest one, each coordinate clamped to
    /// the last valid index.
    pub open spec fn nearest_texel(self, column: u32, row: u32) -> Rgb8 {
        self.texel(
            clamp_coordinate(column, panorama_width(self)),
            clamp_coordinate(row, panorama_height(self)),
        )
    }

    /// The radiance of the panorama at the raw coordinates `(column, row)`.
    pub fn apply(&self, column: u32, row: u32) -> (c: Color)
        requires
            panorama_width(*self) > 0,
            panorama_height(*self) > 0,
        ensures
            c.is_radiance_of(self.nearest_texel(column, row)),
    {
        let width: u32 = self.raster_width();
        let height: u32 = self.raster_height();
        let x: u32 = if column < width { column } else { width - 1 };
        let y: u32 = if row < height { row } else { height - 1 };
        let p = self.get_pixel(x, y);
        Color::from_rbg(p.r, p.g, p.b)
    }

    /// As `apply`, for any panorama: `None` when it has no pixel at all.
    pub fn sample(&self, column: u32, row: u32) -> (c: Option<Color>)
        ensures
            c is None <==> panorama_width(*self) == 0 || panorama_height(*self) == 0,
            c is Some ==> (c->0).is_radiance_of(self.nearest_texel(column, row)),
    {
        if self.raster_width() == 0 || self.raster_height() == 0 {
            None
        } else {
            Some(self.apply(column, row))
        }
    }
}

/// What a ray sees when it leaves the scene.
pub enum Background {
    /// The same radiance in every direction.
    Static(Color),
    /// Radiance looked up in a panorama by the ray's direction.
    Image(ImageSkyboxShader),
}

impl Background {
    /// Whether `c` is what the background gives at the raw panorama
    /// coordinates `(column, row)`: its own colour where it is static, the
    /// radiance of the nearest pixel where it is a panorama, and nothing
    /// where the panorama has no pixel.
    pub open spec fn gives(self, column: u32, row: u32, c: Option<Color>) -> bool {
        match self {
            Background::Static(color) => c == Some(color),
            Background::Image(sky) => {
                &&& c is None <==> panorama_width(sky) == 0 || panorama_height(sky) == 0
                &&& c is Some ==> (c->0).is_radiance_of(sky.nearest_texel(column, row))
            },
        }
    }

    /// The radiance of the background at the raw panorama coordinates
    /// `(column, row)`, which a static background does not look at.
    pub fn apply(&self, column: u32, row: u32) -> (c: Option<Color>)
        ensures
            self.gives(column, row, c),
    {
        match self {
            Background::Static(color) => Some(*color),
            Background::Image(sky) => sky.sample(column, row),
        }
    }
}

/// One thing in the scene: its material. Its shape belongs to the numeric
/// kernel, which files it under the same id.
#[derive(Clone, Copy, Debug, PartialEq, Eq, Structural)]
pub struct Object {
    pub shader: Shader,
}

impl Object {
    pub fn new(shader: Shader) -> (o: Object)
        ensures
            o.shader == shader,
    {
        Object { shader }
    }
}

/// A ray's intersection with one object, as the numeric kernel found it.
#[derive(Clone, Copy, Debug, PartialEq, Eq, Structural)]
pub struct Candidate {
    pub object_id: u64,
    /// The binary64 bit pattern of the distance along the ray.
    pub distance: u64,
}

/// The objects by id, and the background. Nothing changes during a render.
pub struct Scene {
    pub objects: HashMap<u64, Object>,
    pub skybox_shader: Background,
}

/// What the scene decides at the end of one ray.
#[derive(Clone, Copy, Debug, PartialEq, Eq, Structural)]
pub struct Traced {
    /// The index of the closest intersection among the candidates, if any.
    pub hit: Option<usize>,
    /// What the path does next.
    pub step: PathStep,
}

impl Scene {
    /// Whether a candidate counts: it lies strictly in front of the ray's
    /// origin, on an object of the scene other than the one just left.
    pub open spec fn eligible(self, c: Candidate, ignore_id: Option<u64>) -> bool {
        &&& self.objects@.contains_key(c.object_id)
        &&& ignore_id != Some(c.object_id)
        &&& is_positive(c.distance)
    }

    /// Whether `hit` is the closest intersection: the first of the eligible
    /// candidates at the least distance, or `None` when none is eligible.
    pub open spec fn is_closest(
        self,
        candidates: Seq<Candidate>,
        ignore_id: Option<u64>,
        hit: Option<usize>,
    ) -> bool {
        match hit {
            Some(i) => {
                &&& i < candidates.len()
                &&& self.eligible(candidates[i as int], ignore_id)
                &&& forall|j: int|
                    0 <= j < candidates.len() && self.eligible(#[trigger] candidates[j], ignore_id)
                        ==> candidates[i as int].distance <= candidates[j].distance
                &&& forall|j: int|
                    0 <= j < i && self.eligible(#[trigger] candidates[j], ignore_id)
                        ==> candidates[i as int].distance < candidates[j].distance
            },
            None => forall|j: int|
                0 <= j < candidates.len() ==> !self.eligible(#[trigger] candidates[j], ignore_id),
        }
    }

    /// The step of a path in state `state` whose ray met object `hit`, or
    /// nothing: without an object of the scene the path escapes, otherwise
    /// the object's material decides.
    pub open spec fn step_on(self, state: PathState, hit: Option<u64>) -> PathStep {
        match hit {
            Some(id) if self.objects@.contains_key(id) => self.objects@[id].shader.step(
                id,
                state.bounces_left,
            ),
            _ => PathStep::Escaped,
        }
    }

    /// The id of the candidate that `hit` points at.
    pub open spec fn hit_id(candidates: Seq<Candidate>, hit: Option<usize>) -> Option<u64> {
        match hit {
            Some(i) => Some(candidates[i as int].object_id),
            None => None,
        }
    }

    /// How many bounces a path takes that starts in `state` and whose
    /// successive rays meet the objects `hits`: it goes on while the scene's
    /// step is a bounce and there is a next ray.
    pub open spec fn bounces(self, state: PathState, hits: Seq<Option<u64>>) -> nat
        decreases hits.len(),
    {
        if hits.len() == 0 {
            0
        } else {
            match self.step_on(state, hits[0]) {
                PathStep::Bounce { next, .. } => 1 + self.bounces(next, hits.drop_first()),
                _ => 0,
            }
        }
    }

    /// Every path ends: whatever its rays meet, and however the objects are
    /// arranged (mirrors that face each other included), a path takes no
    /// more bounces than its state allows, so it has ended by itself once
    /// more rays than that were followed.
    pub proof fn lemma_bounces_within_budget(self, state: PathState, hits: Seq<Option<u64>>)
        ensures
            self.bounces(state, hits) <= state.bounces_left,
            hits.len() > state.bounces_left ==> self.bounces(state, hits) < hits.len(),
        decreases hits.len(),
    {
        if hits.len() > 0 {
            match self.step_on(state, hits[0]) {
                PathStep::Bounce { next, .. } => {
                    self.lemma_bounces_within_budget(next, hits.drop_first());
                },
                _ => {},
            }
        }
    }

    /// A path whose ray meets no object of the scene ends on the background,
    /// in every state and with any budget.
    pub proof fn lemma_miss_escapes(self, state: PathState, hit: Option<u64>)
        requires
            hit matches Some(id) ==> !self.objects@.contains_key(id),
        ensures
            self.step_on(state, hit) == PathStep::Escaped,
    {
    }

    /// After a bounce the next query passes over the object just left, and
    /// the budget is one less.
    pub proof fn lemma_bounce_leaves_object(self, state: PathState, id: u64)
        requires
            self.step_on(state, Some(id)) is Bounce,
        ensures
            self.step_on(state, Some(id))->next.ignore_id == Some(id),
            self.step_on(state, Some(id))->next.bounces_left + 1 == state.bounces_left,
    {
    }

    /// The closest intersection is unique: two answers that both meet
    /// `is_closest` are the same.
    pub proof fn lemma_closest_unique(
        self,
        candidates: Seq<Candidate>,
        ignore_id: Option<u64>,
        a: Option<usize>,
        b: Option<usize>,
    )
        requires
            self.is_closest(candidates, ignore_id, a),
            self.is_closest(candidates, ignore_id, b),
        ensures
            a == b,
    {
        if a is Some && b is Some {
            let i = a->0 as int;
            let j = b->0 as int;
            assert(self.eligible(candidates[i], ignore_id));
            assert(self.eligible(candidates[j], ignore_id));
        } else if a is Some {
            assert(self.eligible(candidates[a->0 as int], ignore_id));
        } else if b is Some {
            assert(self.eligible(candidates[b->0 as int], ignore_id));
        }
    }

    /// An empty scene before `background`.
    pub fn new(background: Background) -> (scene: Scene)
        ensures
            scene.objects@ == Map::<u64, Object>::empty(),
            scene.skybox_shader == background,
    {
        Scene { objects: HashMap::new(), skybox_shader: background }
    }

    /// Scans the candidates for the closest intersection, passing over the
    /// object `ignore_id` and over every distance that is not strictly
    /// positive.
    pub fn get_closest_intersection(
        &self,
        candidates: &Vec<Candidate>,
        ignore_id: Option<u64>,
    ) -> (hit: Option<usize>)
        ensures
            self.is_closest(candidates@, ignore_id, hit),
            hit is Some ==> is_positive(candidates[hit->0 as int].distance),
    {
        let mut best: Option<usize> = None;
        let mut i: usize = 0;
        while i < candidates.len()
            invariant
                i <= candidates.len(),
                self.is_closest(candidates@.take(i as int), ignore_id, best),
            decreases candidates.len() - i,
        {
            let c = candidates[i];
            let ignored = match ignore_id {
                Some(id) => id == c.object_id,
                None => false,
            };
            let counts = !ignored && positive(c.distance) && self.objects.contains_key(
                &c.object_id,
            );
            assert(counts == self.eligible(c, ignore_id));
            if counts {
                match best {
                    Some(b) => {
                        if c.distance < candidates[b].distance {
                            best = Some(i);
                        }
                    },
                    None => {
                        best = Some(i);
                    },
                }
            }
            proof {
                let seen = candidates@.take(i as int);
                let next = candidates@.take(i + 1);
                assert(forall|j: int| 0 <= j < i ==> next[j] == seen[j]);
                assert(next[i as int] == c);
            }
            i = i + 1;
        }
        assert(candidates@.take(i as int) == candidates@);
        best
    }

    /// One transition of the light-transport recursion: finds the closest
    /// intersection among the candidates, then lets the material of the
    /// object hit decide, or ends the path on the background. The path
    /// escapes exactly when no candidate counts.
    pub fn render_ray(&self, candidates: &Vec<Candidate>, state: PathState) -> (traced: Traced)
        ensures
            self.is_closest(candidates@, state.ignore_id, traced.hit),
            traced.step == self.step_on(state, Scene::hit_id(candidates@, traced.hit)),
            traced.hit is None <==> traced.step == PathStep::Escaped,
            (forall|j: int|
                0 <= j < candidates.len() ==> !self.eligible(
                    #[trigger] candidates[j],
                    state.ignore_id,
                )) ==> traced.step == PathStep::Escaped,
    {
        let hit = self.get_closest_intersection(candidates, state.ignore_id);
        match hit {
            Some(i) => {
                let id: u64 = candidates[i].object_id;
                match self.objects.get(&id) {
                    Some(object) => Traced { hit, step: object.shader.apply(id, state.bounces_left) },
                    None => Traced { hit, step: PathStep::Escaped },
                }
            },
            None => Traced { hit, step: PathStep::Escaped },
        }
    }
}

} // verus!
