//! The scene renderer's bookkeeping: the target extent, the surface format,
//! and the handles that keep the scene's objects and lights alive.

use crate::resolution::{AspectRatio, Resolution};
use crate::scene::Color;
use rend3::types::{DirectionalLightHandle, ObjectHandle, TextureFormat};
use vstd::prelude::*;

verus! {

/// The engine's owning handle to one of its resources.
#[verifier::external_type_specification]
#[verifier::external_body]
#[verifier::reject_recursive_types(T)]
pub struct ExResourceHandle<T>(rend3::types::ResourceHandle<T>);

/// The engine's description of a scene object; here it only tags handles.
#[verifier::external_type_specification]
#[verifier::external_body]
pub struct ExObject(rend3::types::Object);

/// The engine's description of a light; here it only tags handles.
#[verifier::external_type_specification]
#[verifier::external_body]
pub struct ExDirectionalLight(rend3::types::DirectionalLight);

/// The pixel format of a texture or surface.
#[verifier::external_type_specification]
#[verifier::external_body]
pub struct ExTextureFormat(rend3::types::TextureFormat);

/// How finished frames reach the screen.
#[derive(Clone, Copy, Debug, PartialEq, Eq, Structural)]
pub enum PresentMode {
    Immediate,
    Mailbox,
    Fifo,
}

/// Samples per pixel.
#[derive(Clone, Copy, Debug, PartialEq, Eq, Structural)]
pub enum SampleCount {
    One,
    Four,
}

/// What a presentable surface is configured with.
#[derive(Clone, Copy, Debug, PartialEq, Eq)]
pub struct SurfaceConfiguration {
    pub format: TextureFormat,
    pub size: Resolution,
    pub present_mode: PresentMode,
}

/// One execution of the render graph into an off-screen target.
#[derive(Clone, Copy, Debug, PartialEq, Eq)]
pub struct RenderPass {
    /// Extent of the target.
    pub resolution: Resolution,
    pub samples: SampleCount,
    pub ambient: Color,
    pub clear_color: Color,
    /// How many objects the pass draws.
    pub object_count: usize,
    /// How many lights shine on them.
    pub light_count: usize,
}

/// What a `RenderingHandler` stands for.
pub struct Scene {
    /// Extent of the render target.
    pub resolution: Resolution,
    /// Aspect ratio of the camera.
    pub aspect: AspectRatio,
    /// Format of the surface and of the render target.
    pub format: TextureFormat,
    /// Handles of the live objects, oldest first.
    pub objects: Seq<ObjectHandle>,
    /// Handles of the live lights, oldest first.
    pub lights: Seq<DirectionalLightHandle>,
}

impl Scene {
    /// A scene always has a configurable extent, a camera with a proper
    /// aspect ratio, and exactly one light.
    pub open spec fn wf(self) -> bool {
        self.resolution.valid() && self.aspect.valid() && self.lights.len() == 1
    }

    /// The scene at construction: the first supported format, no object,
    /// one light.
    pub open spec fn initial(
        formats: Seq<TextureFormat>,
        size: Resolution,
        light: DirectionalLightHandle,
    ) -> Scene {
        Scene {
            resolution: size,
            aspect: size.ratio(),
            format: formats[0],
            objects: Seq::empty(),
            lights: seq![light],
        }
    }

    /// The scene after its target has taken the extent `size`: the camera
    /// follows.
    pub open spec fn resized(self, size: Resolution) -> Scene {
        Scene { resolution: size, aspect: size.ratio(), ..self }
    }

    /// The scene after its camera has taken the aspect ratio `aspect`; the
    /// target keeps its extent.
    pub open spec fn with_aspect(self, aspect: AspectRatio) -> Scene {
        Scene { aspect, ..self }
    }

    /// The scene after one more cube has been added.
    pub open spec fn with_cube(self, handle: ObjectHandle) -> Scene {
        Scene { objects: self.objects.push(handle), ..self }
    }

    /// The scene after the cubes of `handles` have been added in order.
    pub open spec fn with_cubes(self, handles: Seq<ObjectHandle>) -> Scene
        decreases handles.len(),
    {
        if handles.len() == 0 {
            self
        } else {
            self.with_cubes(handles.drop_last()).with_cube(handles.last())
        }
    }

    /// What the surface is configured with: the scene's format and extent,
    /// and mailbox presentation.
    pub open spec fn surface(self) -> SurfaceConfiguration {
        SurfaceConfiguration {
            format: self.format,
            size: self.resolution,
            present_mode: PresentMode::Mailbox,
        }
    }

    /// The off-screen pass: every live object and light, one sample per
    /// pixel, no ambient light, over the dark tint.
    pub open spec fn pass(self) -> RenderPass {
        RenderPass {
            resolution: self.resolution,
            samples: SampleCount::One,
            ambient: crate::scene::no_light(),
            clear_color: crate::scene::dark_tint(),
            object_count: self.objects.len() as usize,
            light_count: self.lights.len() as usize,
        }
    }
}

/// Keeps the books of the off-screen scene: the extent of its target, the
/// aspect ratio of its camera, the format it renders in, and the handles
/// that keep its objects and lights alive.
pub struct RenderingHandler {
    resolution: Resolution,
    aspect: AspectRatio,
    preferred_format: TextureFormat,
    objects: Vec<ObjectHandle>,
    lights: Vec<DirectionalLightHandle>,
}

impl View for RenderingHandler {
    type V = Scene;

    closed spec fn view(&self) -> Scene {
        Scene {
            resolution: self.resolution,
            aspect: self.aspect,
            format: self.preferred_format,
            objects: self.objects@,
            lights: self.lights@,
        }
    }
}

impl RenderingHandler {
    /// A handler for a surface that supports `formats`, in the order of the
    /// adapter's report, and a target of extent `size`. The scene starts
    /// with no object and with the one light whose handle is given.
    pub fn new(formats: &Vec<TextureFormat>, size: Resolution, light: DirectionalLightHandle) -> (handler:
        Self)
        requires
            formats@.len() > 0,
            size.valid(),
        ensures
            handler@ == Scene::initial(formats@, size, light),
            handler@.wf(),
    {
        let preferred_format = formats[0];
        let mut lights: Vec<DirectionalLightHandle> = Vec::new();
        lights.push(light);
        RenderingHandler {
            resolution: size,
            aspect: size.aspect_ratio(),
            preferred_format,
            objects: Vec::new(),
            lights,
        }
    }

    /// Takes `new_size` as the extent of the target, and its width over its
    /// height as the camera's aspect ratio. Format, objects and lights stay
    /// as they are.
    pub fn resize(&mut self, new_size: Resolution)
        requires
            new_size.valid(),
        ensures
            final(self)@ == old(self)@.resized(new_size),
            old(self)@.wf() ==> final(self)@.wf(),
    {
        self.resolution = new_size;
        self.aspect = new_size.aspect_ratio();
    }

    /// Gives the camera another aspect ratio. The target keeps its extent.
    pub fn set_aspect_ratio(&mut self, aspect: AspectRatio)
        requires
            aspect.valid(),
        ensures
            final(self)@ == old(self)@.with_aspect(aspect),
            old(self)@.wf() ==> final(self)@.wf(),
    {
        self.aspect = aspect;
    }

    /// The pass that renders the scene as it stands into a target of the
    /// current extent.
    pub fn render_to_texture(&self) -> (pass: RenderPass)
        ensures
            pass == self@.pass(),
    {
        RenderPass {
            resolution: self.resolution,
            samples: SampleCount::One,
            ambient: crate::scene::ambient(),
            clear_color: crate::scene::clear_color(),
            object_count: self.objects.len(),
            light_count: self.lights.len(),
        }
    }

    /// Takes over the handle of a cube that the engine has just created, and
    /// with it keeps the cube alive. Nothing else changes; the handle is
    /// appended whether or not an equal one is already held.
    pub fn add_cube(&mut self, handle: ObjectHandle)
        ensures
            final(self)@ == old(self)@.with_cube(handle),
            old(self)@.wf() ==> final(self)@.wf(),
    {
        self.objects.push(handle);
    }

    /// What the surface is to be configured with.
    pub fn surface_configuration(&self) -> (config: SurfaceConfiguration)
        ensures
            config == self@.surface(),
    {
        SurfaceConfiguration {
            format: self.preferred_format,
            size: self.resolution,
            present_mode: PresentMode::Mailbox,
        }
    }

    /// The camera's aspect ratio.
    pub fn aspect_ratio(&self) -> (ratio: AspectRatio)
        ensures
            ratio == self@.aspect,
    {
        self.aspect
    }

    /// The extent of the render target.
    pub fn resolution(&self) -> (size: Resolution)
        ensures
            size == self@.resolution,
    {
        self.resolution
    }

    /// The format of the surface and of the render target.
    pub fn preferred_format(&self) -> (format: TextureFormat)
        ensures
            format == self@.format,
    {
        self.preferred_format
    }

    /// The number of live objects.
    pub fn object_count(&self) -> (count: usize)
        ensures
            count == self@.objects.len(),
    {
        self.objects.len()
    }

    /// The number of live lights.
    pub fn light_count(&self) -> (count: usize)
        ensures
            count == self@.lights.len(),
    {
        self.lights.len()
    }

    /// The handles of the live objects, oldest first.
    pub fn objects(&self) -> (handles: &Vec<ObjectHandle>)
        ensures
            handles@ == self@.objects,
    {
        &self.objects
    }

    /// The handles of the live lights, oldest first.
    pub fn lights(&self) -> (handles: &Vec<DirectionalLightHandle>)
        ensures
            handles@ == self@.lights,
    {
        &self.lights
    }
}

/// Adding cubes appends their handles, in order and one for one: after
/// the cubes of `handles` the scene holds the handles it held before,
/// followed by exactly those of `handles`, equal ones included. Extent,
/// format and lights are untouched.
pub proof fn lemma_cubes_accumulate(scene: Scene, handles: Seq<ObjectHandle>)
    ensures
        scene.with_cubes(handles).objects == scene.objects + handles,
        scene.with_cubes(handles).objects.len() == scene.objects.len() + handles.len(),
        scene.with_cubes(handles).resolution == scene.resolution,
        scene.with_cubes(handles).aspect == scene.aspect,
        scene.with_cubes(handles).format == scene.format,
        scene.with_cubes(handles).lights == scene.lights,
    decreases handles.len(),
{
    if handles.len() == 0 {
        assert(scene.objects + handles =~= scene.objects);
    } else {
        lemma_cubes_accumulate(scene, handles.drop_last());
        assert(scene.objects + handles =~= (scene.objects + handles.drop_last()).push(
            handles.last(),
        ));
    }
}

/// A fresh scene to which `handles.len()` cubes have been added holds
/// exactly that many objects: the cubes' handles.
pub proof fn lemma_cube_count(
    formats: Seq<TextureFormat>,
    size: Resolution,
    light: DirectionalLightHandle,
    handles: Seq<ObjectHandle>,
)
    ensures
        Scene::initial(formats, size, light).with_cubes(handles).objects == handles,
        Scene::initial(formats, size, light).with_cubes(handles).objects.len() == handles.len(),
{
    let scene = Scene::initial(formats, size, light);
    lemma_cubes_accumulate(scene, handles);
    assert(scene.objects + handles =~= handles);
}

/// Resizing replaces the extent and the camera's aspect ratio, which
/// becomes the new width over the new height, and nothing else: format,
/// objects and lights are those of before. A valid extent keeps the scene
/// well-formed.
pub proof fn lemma_resize(scene: Scene, size: Resolution)
    ensures
        scene.resized(size).resolution == size,
        scene.resized(size).aspect == (AspectRatio {
            numerator: size.width,
            denominator: size.height,
        }),
        scene.resized(size).format == scene.format,
        scene.resized(size).objects == scene.objects,
        scene.resized(size).lights == scene.lights,
        scene.wf() && size.valid() ==> scene.resized(size).wf(),
{
}

/// Resizing twice to the same extent is the same as resizing once.
pub proof fn lemma_resize_idempotent(scene: Scene, size: Resolution)
    ensures
        scene.resized(size).resized(size) == scene.resized(size),
        scene.resized(size).resized(size).resolution == size,
        scene.resized(size).resized(size).aspect == size.ratio(),
{
}

/// Adding a cube and resizing do not interfere: either order gives the
/// same scene.
pub proof fn lemma_resize_commutes_with_cube(scene: Scene, size: Resolution, handle: ObjectHandle)
    ensures
        scene.resized(size).with_cube(handle) == scene.with_cube(handle).resized(size),
{
}

} // verus!
