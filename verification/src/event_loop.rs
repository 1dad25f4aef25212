//! The decisions of the window's event loop: what each window event asks
//! for, and what one frame consists of.

use crate::rendering::{
    PresentMode, RenderPass, RenderingHandler, SampleCount, Scene, SurfaceConfiguration,
};
use crate::resolution::{AspectRatio, Resolution};
use crate::scene::Color;
use rend3::types::{ObjectHandle, TextureFormat};
use vstd::prelude::*;

verus! {

/// A window event, as far as the loop tells events apart.
#[derive(Clone, Copy, Debug, PartialEq, Eq, Structural)]
pub enum Event {
    /// The user asked to close the window.
    CloseRequested,
    /// The window has taken a new size.
    Resized(Resolution),
    /// All pending events have been handled: time to draw.
    MainEventsCleared,
    /// Any other event.
    Other,
}

/// Whether the loop goes on.
#[derive(Clone, Copy, Debug, PartialEq, Eq, Structural)]
pub enum ControlFlow {
    Poll,
    Exit,
}

/// How a texture is sampled when it is shown at another size.
#[derive(Clone, Copy, Debug, PartialEq, Eq, Structural)]
pub enum FilterMode {
    Nearest,
    Linear,
}

/// What the loop does in answer to an event.
#[derive(Clone, Copy, Debug, PartialEq, Eq)]
pub enum Action {
    /// Leave the loop.
    Exit,
    /// Configure the surface anew and give the cameras this aspect ratio.
    Reconfigure(SurfaceConfiguration, AspectRatio),
    /// Produce one frame.
    Redraw,
    /// Nothing.
    Ignore,
}

/// The title of the window.
pub const WINDOW_TITLE: &'static str = "r3e";

/// The text of the button that adds a cube.
pub const ADD_CUBE_LABEL: &'static str = "Add cube";

/// The pass that draws the screen below the GUI.
#[derive(Clone, Copy, Debug, PartialEq, Eq)]
pub struct ScreenPass {
    /// Extent of the screen's surface.
    pub resolution: Resolution,
    pub samples: SampleCount,
    pub ambient: Color,
    pub clear_color: Color,
}

/// The texture that a frame renders the scene into.
#[derive(Clone, Copy, Debug, PartialEq, Eq)]
pub struct OffscreenTarget {
    pub size: Resolution,
    pub format: TextureFormat,
    pub mip_level_count: u32,
    pub sample_count: u32,
}

/// One frame: the scene is rendered into a fresh off-screen target, which
/// the GUI shows as an image; then the screen is drawn.
#[derive(Clone, Copy, Debug, PartialEq, Eq)]
pub struct Frame {
    /// The target to create.
    pub target: OffscreenTarget,
    /// The pass that fills it.
    pub offscreen: RenderPass,
    /// Pixel size at which the GUI shows the target.
    pub image_size: Resolution,
    /// How the GUI samples the target.
    pub filter: FilterMode,
    /// The pass that is drawn onto the screen below the GUI.
    pub screen: ScreenPass,
}

/// What an `EventLoopDriver` stands for.
pub struct Window {
    /// Size of the window's surface.
    pub resolution: Resolution,
    /// Format of the window's surface.
    pub format: TextureFormat,
    pub control_flow: ControlFlow,
}

impl Window {
    /// The window at start-up: the first supported format, the loop running.
    pub open spec fn initial(formats: Seq<TextureFormat>, size: Resolution) -> Window {
        Window { resolution: size, format: formats[0], control_flow: ControlFlow::Poll }
    }

    /// The events that the loop can answer: a window cannot take a size
    /// that its surface cannot be configured with.
    pub open spec fn accepts(event: Event) -> bool {
        event matches Event::Resized(size) ==> size.valid()
    }

    /// The window after `event`.
    pub open spec fn after(self, event: Event) -> Window {
        match event {
            Event::CloseRequested => Window { control_flow: ControlFlow::Exit, ..self },
            Event::Resized(size) => Window { resolution: size, ..self },
            Event::MainEventsCleared => self,
            Event::Other => self,
        }
    }

    /// What `event` asks for, given the window after it.
    pub open spec fn answer(self, event: Event) -> Action {
        match event {
            Event::CloseRequested => Action::Exit,
            Event::Resized(size) => Action::Reconfigure(
                self.after(event).surface(),
                size.ratio(),
            ),
            Event::MainEventsCleared => Action::Redraw,
            Event::Other => Action::Ignore,
        }
    }

    /// The window after the events of `events`, in order.
    pub open spec fn after_all(self, events: Seq<Event>) -> Window
        decreases events.len(),
    {
        if events.len() == 0 {
            self
        } else {
            self.after_all(events.drop_last()).after(events.last())
        }
    }

    /// What the window's surface is configured with.
    pub open spec fn surface(self) -> SurfaceConfiguration {
        SurfaceConfiguration {
            format: self.format,
            size: self.resolution,
            present_mode: PresentMode::Mailbox,
        }
    }

    /// The pass onto the screen: at the window's size, one sample per
    /// pixel, no ambient light, over black.
    pub open spec fn screen_pass(self) -> ScreenPass {
        ScreenPass {
            resolution: self.resolution,
            samples: SampleCount::One,
            ambient: crate::scene::no_light(),
            clear_color: crate::scene::black(),
        }
    }

    /// The frame that shows `scene` in this window.
    pub open spec fn frame(self, scene: Scene) -> Frame {
        Frame {
            target: OffscreenTarget {
                size: scene.resolution,
                format: scene.format,
                mip_level_count: 1,
                sample_count: 1,
            },
            offscreen: scene.pass(),
            image_size: scene.resolution,
            filter: FilterMode::Linear,
            screen: self.screen_pass(),
        }
    }
}

/// The scene after a window event: a new window size gives the camera the
/// window's aspect ratio and leaves the render target as it is; no other
/// event touches the scene.
pub open spec fn scene_after_event(scene: Scene, event: Event) -> Scene {
    match event {
        Event::Resized(size) => scene.with_aspect(size.ratio()),
        _ => scene,
    }
}

/// The scene at the end of a frame in which the GUI left `viewport` to it
/// and, if the button was clicked, a cube was spawned.
pub open spec fn scene_after_frame(
    scene: Scene,
    spawned: Option<ObjectHandle>,
    viewport: Resolution,
) -> Scene {
    match spawned {
        Some(handle) => scene.with_cube(handle).resized(viewport),
        None => scene.resized(viewport),
    }
}

/// Keeps the books of the window: the size and format of its surface, and
/// whether its loop goes on.
pub struct EventLoopDriver {
    resolution: Resolution,
    preferred_format: TextureFormat,
    control_flow: ControlFlow,
}

impl View for EventLoopDriver {
    type V = Window;

    closed spec fn view(&self) -> Window {
        Window {
            resolution: self.resolution,
            format: self.preferred_format,
            control_flow: self.control_flow,
        }
    }
}

impl EventLoopDriver {
    /// A driver for a window of the given size whose surface supports
    /// `formats`, in the order of the adapter's report.
    pub fn new(formats: &Vec<TextureFormat>, size: Resolution) -> (driver: Self)
        requires
            formats@.len() > 0,
            size.valid(),
        ensures
            driver@ == Window::initial(formats@, size),
    {
        EventLoopDriver {
            resolution: size,
            preferred_format: formats[0],
            control_flow: ControlFlow::Poll,
        }
    }

    /// Takes one event and says what is to be done. A close request ends
    /// the loop for good; a new size is taken over, the surface is to be
    /// configured with it and the scene's camera takes its aspect ratio;
    /// when the events are cleared a frame is due; everything else is
    /// ignored.
    pub fn handle_event(&mut self, handler: &mut RenderingHandler, event: Event) -> (action: Action)
        requires
            Window::accepts(event),
        ensures
            final(self)@ == old(self)@.after(event),
            final(handler)@ == scene_after_event(old(handler)@, event),
            old(handler)@.wf() ==> final(handler)@.wf(),
            action == old(self)@.answer(event),
    {
        match event {
            Event::CloseRequested => {
                self.control_flow = ControlFlow::Exit;
                Action::Exit
            },
            Event::Resized(size) => {
                self.resolution = size;
                let aspect = size.aspect_ratio();
                handler.set_aspect_ratio(aspect);
                Action::Reconfigure(
                    SurfaceConfiguration {
                        format: self.preferred_format,
                        size,
                        present_mode: PresentMode::Mailbox,
                    },
                    aspect,
                )
            },
            Event::MainEventsCleared => Action::Redraw,
            Event::Other => Action::Ignore,
        }
    }

    /// Plans one frame. If the GUI's button was clicked, `spawned` is the
    /// handle of the cube that was created for it, and the scene takes it
    /// over; then the scene's target takes the extent that the GUI left
    /// free. The frame renders the scene into a fresh target of that extent
    /// and draws the screen at the window's size.
    pub fn redraw(
        &self,
        handler: &mut RenderingHandler,
        spawned: Option<ObjectHandle>,
        viewport: Resolution,
    ) -> (frame: Frame)
        requires
            viewport.valid(),
        ensures
            final(handler)@ == scene_after_frame(old(handler)@, spawned, viewport),
            old(handler)@.wf() ==> final(handler)@.wf(),
            frame == self@.frame(final(handler)@),
    {
        match spawned {
            Some(handle) => {
                handler.add_cube(handle);
            },
            None => {},
        }
        handler.resize(viewport);
        let size = handler.resolution();
        Frame {
            target: OffscreenTarget {
                size,
                format: handler.preferred_format(),
                mip_level_count: 1,
                sample_count: 1,
            },
            offscreen: handler.render_to_texture(),
            image_size: size,
            filter: FilterMode::Linear,
            screen: self.screen_pass(),
        }
    }

    /// The pass that draws the screen below the GUI.
    pub fn screen_pass(&self) -> (pass: ScreenPass)
        ensures
            pass == self@.screen_pass(),
    {
        ScreenPass {
            resolution: self.resolution,
            samples: SampleCount::One,
            ambient: crate::scene::ambient(),
            clear_color: crate::scene::screen_clear_color(),
        }
    }

    /// What the window's surface is to be configured with.
    pub fn surface_configuration(&self) -> (config: SurfaceConfiguration)
        ensures
            config == self@.surface(),
    {
        SurfaceConfiguration {
            format: self.preferred_format,
            size: self.resolution,
            present_mode: PresentMode::Mailbox,
        }
    }

    /// The size of the window's surface.
    pub fn resolution(&self) -> (size: Resolution)
        ensures
            size == self@.resolution,
    {
        self.resolution
    }

    /// The format of the window's surface.
    pub fn preferred_format(&self) -> (format: TextureFormat)
        ensures
            format == self@.format,
    {
        self.preferred_format
    }

    /// Whether the loop goes on.
    pub fn control_flow(&self) -> (flow: ControlFlow)
        ensures
            flow == self@.control_flow,
    {
        self.control_flow
    }
}

/// A close request ends the loop, whatever the window's state.
pub proof fn lemma_close_exits(window: Window)
    ensures
        window.after(Event::CloseRequested).control_flow == ControlFlow::Exit,
        window.answer(Event::CloseRequested) == Action::Exit,
        window.after(Event::CloseRequested).resolution == window.resolution,
        window.after(Event::CloseRequested).format == window.format,
{
}

/// Leaving the loop is final: no later event brings it back.
pub proof fn lemma_exit_is_final(window: Window, events: Seq<Event>)
    requires
        window.control_flow == ControlFlow::Exit,
    ensures
        window.after_all(events).control_flow == ControlFlow::Exit,
    decreases events.len(),
{
    if events.len() > 0 {
        lemma_exit_is_final(window, events.drop_last());
    }
}

/// Only a close request ends the loop: as long as none has come, the loop
/// goes on.
pub proof fn lemma_runs_until_closed(window: Window, events: Seq<Event>)
    requires
        window.control_flow == ControlFlow::Poll,
        forall|i: int| 0 <= i < events.len() ==> events[i] != Event::CloseRequested,
    ensures
        window.after_all(events).control_flow == ControlFlow::Poll,
    decreases events.len(),
{
    if events.len() > 0 {
        lemma_runs_until_closed(window, events.drop_last());
    }
}

/// A new window size reaches the scene's camera and nothing else of the
/// scene: the render target keeps its extent until the next frame.
pub proof fn lemma_window_resize(window: Window, scene: Scene, size: Resolution)
    ensures
        window.after(Event::Resized(size)).resolution == size,
        window.after(Event::Resized(size)).control_flow == window.control_flow,
        window.answer(Event::Resized(size)) == Action::Reconfigure(
            SurfaceConfiguration {
                format: window.format,
                size,
                present_mode: PresentMode::Mailbox,
            },
            size.ratio(),
        ),
        scene_after_event(scene, Event::Resized(size)).aspect == size.ratio(),
        scene_after_event(scene, Event::Resized(size)).resolution == scene.resolution,
        scene_after_event(scene, Event::Resized(size)).objects == scene.objects,
        scene_after_event(scene, Event::Resized(size)).lights == scene.lights,
{
}

/// A frame renders the scene at exactly the extent that the GUI left free,
/// shows it at that size, and draws every cube added so far; the window's
/// own size only governs the pass onto the screen.
pub proof fn lemma_frame(
    window: Window,
    scene: Scene,
    spawned: Option<ObjectHandle>,
    viewport: Resolution,
)
    ensures
        ({
            let next = scene_after_frame(scene, spawned, viewport);
            let frame = window.frame(next);
            &&& frame.target.size == viewport
            &&& frame.image_size == viewport
            &&& frame.offscreen.resolution == viewport
            &&& frame.screen.resolution == window.resolution
            &&& next.aspect == viewport.ratio()
            &&& next.objects.len() == scene.objects.len() + (if spawned is Some {
                1int
            } else {
                0int
            })
            &&& next.lights == scene.lights
        }),
{
}

} // verus!
