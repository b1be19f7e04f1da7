use frame_loop::application::Application;
use frame_loop::errors::ResizeError;
use frame_loop::surface::FormatDesc;
use frame_loop::surface::SurfaceConfig;
use frame_loop::window::PhysicalSize;
use frame_loop::window::WindowId;

fn sample_app() -> Application {
    Application {
        config: SurfaceConfig {
            format: FormatDesc { code: 1, srgb: true },
            width: 640,
            height: 480,
            present_mode: 10,
            alpha_mode: 20,
            desired_maximum_frame_latency: 2,
        },
        window: WindowId(7),
    }
}

#[test]
fn resize_takes_exactly_the_new_extent() {
    let mut app = sample_app();
    assert_eq!(app.resize(PhysicalSize { width: 1024, height: 768 }), Ok(()));
    assert_eq!(app.config.width, 1024);
    assert_eq!(app.config.height, 768);
}

#[test]
fn resize_keeps_format_and_modes() {
    let mut app = sample_app();
    assert_eq!(app.resize(PhysicalSize { width: 5, height: 9 }), Ok(()));
    assert_eq!(app.config.format, FormatDesc { code: 1, srgb: true });
    assert_eq!(app.config.present_mode, 10);
    assert_eq!(app.config.alpha_mode, 20);
    assert_eq!(app.config.desired_maximum_frame_latency, 2);
    assert_eq!(app.window, WindowId(7));
}

#[test]
fn resize_accepts_the_largest_size() {
    let mut app = sample_app();
    assert_eq!(
        app.resize(PhysicalSize { width: u32::MAX, height: u32::MAX }),
        Ok(())
    );
    assert_eq!(app.config.width, u32::MAX);
    assert_eq!(app.config.height, u32::MAX);
}

#[test]
fn zero_width_fails_and_changes_nothing() {
    let mut app = sample_app();
    let before = app;
    assert_eq!(
        app.resize(PhysicalSize { width: 0, height: 480 }),
        Err(ResizeError::ZeroDimension)
    );
    assert_eq!(app, before);
}

#[test]
fn zero_height_fails_and_changes_nothing() {
    let mut app = sample_app();
    let before = app;
    assert_eq!(
        app.resize(PhysicalSize { width: 640, height: 0 }),
        Err(ResizeError::ZeroDimension)
    );
    assert_eq!(app, before);
}

#[test]
fn both_zero_fails_and_changes_nothing() {
    let mut app = sample_app();
    let before = app;
    assert_eq!(
        app.resize(PhysicalSize { width: 0, height: 0 }),
        Err(ResizeError::ZeroDimension)
    );
    assert_eq!(app, before);
}

#[test]
fn resize_is_idempotent() {
    let size = PhysicalSize { width: 300, height: 200 };
    let mut once = sample_app();
    assert_eq!(once.resize(size), Ok(()));
    let mut twice = sample_app();
    assert_eq!(twice.resize(size), Ok(()));
    assert_eq!(twice.resize(size), Ok(()));
    assert_eq!(once.config, twice.config);
}

#[test]
fn resize_to_the_current_size_is_a_valid_no_op() {
    let mut app = sample_app();
    let before = app;
    assert_eq!(app.resize(PhysicalSize { width: 640, height: 480 }), Ok(()));
    assert_eq!(app, before);
}
