use r3e::event_loop::{
    Action, ControlFlow, Event, EventLoopDriver, FilterMode, Frame, OffscreenTarget, ScreenPass,
    ADD_CUBE_LABEL, WINDOW_TITLE,
};
use r3e::rendering::{PresentMode, RenderPass, RenderingHandler, SampleCount, SurfaceConfiguration};
use r3e::resolution::{AspectRatio, Resolution};
use r3e::scene::Color;
use rend3::types::{DirectionalLightHandle, ObjectHandle, TextureFormat};

fn formats() -> Vec<TextureFormat> {
    vec![TextureFormat::Rgba8UnormSrgb, TextureFormat::Bgra8UnormSrgb]
}

fn driver() -> EventLoopDriver {
    EventLoopDriver::new(&formats(), Resolution::new(1280, 720))
}

fn handler() -> RenderingHandler {
    RenderingHandler::new(&formats(), Resolution::new(1280, 720), DirectionalLightHandle::new(0))
}

#[test]
fn driver_starts_running() {
    let d = driver();
    assert_eq!(d.control_flow(), ControlFlow::Poll);
    assert_eq!(d.resolution(), Resolution::new(1280, 720));
    assert_eq!(d.preferred_format(), TextureFormat::Rgba8UnormSrgb);
    assert_eq!(
        d.surface_configuration(),
        SurfaceConfiguration {
            format: TextureFormat::Rgba8UnormSrgb,
            size: Resolution::new(1280, 720),
            present_mode: PresentMode::Mailbox,
        }
    );
}

#[test]
fn close_request_ends_the_loop() {
    let mut d = driver();
    let mut h = handler();
    assert_eq!(d.handle_event(&mut h, Event::CloseRequested), Action::Exit);
    assert_eq!(d.control_flow(), ControlFlow::Exit);
    assert_eq!(d.resolution(), Resolution::new(1280, 720));
    assert_eq!(h.object_count(), 0);
    assert_eq!(h.resolution(), Resolution::new(1280, 720));
    assert_eq!(h.aspect_ratio(), AspectRatio { numerator: 1280, denominator: 720 });
}

#[test]
fn exit_is_final() {
    let mut d = driver();
    let mut h = handler();
    d.handle_event(&mut h, Event::CloseRequested);
    d.handle_event(&mut h, Event::Other);
    assert_eq!(d.control_flow(), ControlFlow::Exit);
    d.handle_event(&mut h, Event::Resized(Resolution::new(10, 10)));
    assert_eq!(d.control_flow(), ControlFlow::Exit);
    d.handle_event(&mut h, Event::MainEventsCleared);
    assert_eq!(d.control_flow(), ControlFlow::Exit);
    assert_eq!(d.handle_event(&mut h, Event::CloseRequested), Action::Exit);
    assert_eq!(d.control_flow(), ControlFlow::Exit);
}

#[test]
fn resize_event_reconfigures_the_surface() {
    let mut d = driver();
    let mut h = handler();
    let action = d.handle_event(&mut h, Event::Resized(Resolution::new(800, 600)));
    assert_eq!(
        action,
        Action::Reconfigure(
            SurfaceConfiguration {
                format: TextureFormat::Rgba8UnormSrgb,
                size: Resolution::new(800, 600),
                present_mode: PresentMode::Mailbox,
            },
            AspectRatio { numerator: 800, denominator: 600 },
        )
    );
    assert_eq!(d.resolution(), Resolution::new(800, 600));
    assert_eq!(d.control_flow(), ControlFlow::Poll);
    assert_eq!(d.surface_configuration().size, Resolution::new(800, 600));
}

#[test]
fn resize_event_turns_the_camera_only() {
    let mut d = driver();
    let mut h = handler();
    h.add_cube(ObjectHandle::new(1));
    d.handle_event(&mut h, Event::Resized(Resolution::new(800, 600)));
    assert_eq!(h.aspect_ratio(), AspectRatio { numerator: 800, denominator: 600 });
    assert_eq!(h.resolution(), Resolution::new(1280, 720));
    assert_eq!(h.render_to_texture().resolution, Resolution::new(1280, 720));
    assert_eq!(h.object_count(), 1);
    assert_eq!(h.light_count(), 1);
}

#[test]
fn cleared_events_ask_for_a_frame() {
    let mut d = driver();
    let mut h = handler();
    assert_eq!(d.handle_event(&mut h, Event::MainEventsCleared), Action::Redraw);
    assert_eq!(d.control_flow(), ControlFlow::Poll);
    assert_eq!(d.resolution(), Resolution::new(1280, 720));
    assert_eq!(h.resolution(), Resolution::new(1280, 720));
}

#[test]
fn other_events_are_ignored() {
    let mut d = driver();
    let mut h = handler();
    h.add_cube(ObjectHandle::new(4));
    for _ in 0..10 {
        assert_eq!(d.handle_event(&mut h, Event::Other), Action::Ignore);
    }
    assert_eq!(d.control_flow(), ControlFlow::Poll);
    assert_eq!(d.resolution(), Resolution::new(1280, 720));
    assert_eq!(d.preferred_format(), TextureFormat::Rgba8UnormSrgb);
    assert_eq!(h.object_count(), 1);
    assert_eq!(h.aspect_ratio(), AspectRatio { numerator: 1280, denominator: 720 });
}

#[test]
fn frame_without_click() {
    let d = driver();
    let mut h = handler();
    let frame = d.redraw(&mut h, None, Resolution::new(1000, 700));
    assert_eq!(
        frame,
        Frame {
            target: OffscreenTarget {
                size: Resolution::new(1000, 700),
                format: TextureFormat::Rgba8UnormSrgb,
                mip_level_count: 1,
                sample_count: 1,
            },
            offscreen: RenderPass {
                resolution: Resolution::new(1000, 700),
                samples: SampleCount::One,
                ambient: Color { red: 0, green: 0, blue: 0, alpha: 0 },
                clear_color: Color { red: 10, green: 5, blue: 10, alpha: 100 },
                object_count: 0,
                light_count: 1,
            },
            image_size: Resolution::new(1000, 700),
            filter: FilterMode::Linear,
            screen: ScreenPass {
                resolution: Resolution::new(1280, 720),
                samples: SampleCount::One,
                ambient: Color { red: 0, green: 0, blue: 0, alpha: 0 },
                clear_color: Color { red: 0, green: 0, blue: 0, alpha: 100 },
            },
        }
    );
    assert_eq!(h.object_count(), 0);
    assert_eq!(h.resolution(), Resolution::new(1000, 700));
    assert_eq!(h.aspect_ratio(), AspectRatio { numerator: 1000, denominator: 700 });
}

#[test]
fn frame_with_click_spawns_one_cube() {
    let d = driver();
    let mut h = handler();
    let frame = d.redraw(&mut h, Some(ObjectHandle::new(42)), Resolution::new(1000, 700));
    assert_eq!(h.object_count(), 1);
    assert_eq!(h.objects()[0], ObjectHandle::new(42));
    assert_eq!(frame.offscreen.object_count, 1);
    let frame = d.redraw(&mut h, None, Resolution::new(1000, 700));
    assert_eq!(h.object_count(), 1);
    assert_eq!(frame.offscreen.object_count, 1);
    let frame = d.redraw(&mut h, Some(ObjectHandle::new(43)), Resolution::new(900, 700));
    assert_eq!(h.object_count(), 2);
    assert_eq!(frame.offscreen.object_count, 2);
    assert_eq!(frame.target.size, Resolution::new(900, 700));
}

#[test]
fn window_size_does_not_resize_the_scene() {
    let mut d = driver();
    let mut h = handler();
    d.handle_event(&mut h, Event::Resized(Resolution::new(2000, 1000)));
    assert_eq!(h.resolution(), Resolution::new(1280, 720));
    assert_eq!(h.aspect_ratio(), AspectRatio { numerator: 2000, denominator: 1000 });
    let frame = d.redraw(&mut h, None, Resolution::new(1500, 900));
    assert_eq!(frame.screen.resolution, Resolution::new(2000, 1000));
    assert_eq!(frame.offscreen.resolution, Resolution::new(1500, 900));
    assert_eq!(h.resolution(), Resolution::new(1500, 900));
    assert_eq!(h.aspect_ratio(), AspectRatio { numerator: 1500, denominator: 900 });
    assert_eq!(d.resolution(), Resolution::new(2000, 1000));
}

#[test]
fn click_then_resize_then_close() {
    let mut d = driver();
    let mut h = handler();
    assert_eq!(d.handle_event(&mut h, Event::MainEventsCleared), Action::Redraw);
    d.redraw(&mut h, Some(ObjectHandle::new(0)), Resolution::new(1000, 700));
    d.handle_event(&mut h, Event::Resized(Resolution::new(800, 600)));
    assert_eq!(h.object_count(), 1);
    let ratio = h.aspect_ratio();
    assert_eq!(ratio, AspectRatio { numerator: 800, denominator: 600 });
    assert_eq!(ratio.numerator as f32 / ratio.denominator as f32, 800.0f32 / 600.0f32);
    assert_eq!(d.handle_event(&mut h, Event::CloseRequested), Action::Exit);
    assert_eq!(d.control_flow(), ControlFlow::Exit);
    assert_eq!(h.object_count(), 1);
}

#[test]
fn screen_pass_is_empty_and_black() {
    let d = driver();
    let pass = d.screen_pass();
    assert_eq!(pass.ambient, Color { red: 0, green: 0, blue: 0, alpha: 0 });
    assert_eq!(pass.clear_color, Color { red: 0, green: 0, blue: 0, alpha: 100 });
    assert_eq!(pass.samples, SampleCount::One);
    assert_eq!(pass.resolution, Resolution::new(1280, 720));
}

#[test]
fn window_texts() {
    assert_eq!(WINDOW_TITLE, "r3e");
    assert_eq!(ADD_CUBE_LABEL, "Add cube");
}
