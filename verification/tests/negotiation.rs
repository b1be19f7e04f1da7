use frame_loop::application::Application;
use frame_loop::errors::AppError;
use frame_loop::surface::FormatDesc;
use frame_loop::surface::SurfaceCaps;
use frame_loop::surface::choose_format;
use frame_loop::surface::negotiate_config;
use frame_loop::window::PhysicalSize;
use frame_loop::window::WindowId;

fn caps(formats: Vec<FormatDesc>, present_modes: Vec<u32>, alpha_modes: Vec<u32>) -> SurfaceCaps {
    SurfaceCaps { formats, present_modes, alpha_modes }
}

fn fmt(code: u32, srgb: bool) -> FormatDesc {
    FormatDesc { code, srgb }
}

#[test]
fn picks_first_srgb_format() {
    let formats = vec![fmt(0, false), fmt(1, true), fmt(2, true)];
    assert_eq!(choose_format(&formats), Ok(fmt(1, true)));
}

#[test]
fn picks_first_format_without_srgb() {
    let formats = vec![fmt(4, false), fmt(5, false)];
    assert_eq!(choose_format(&formats), Ok(fmt(4, false)));
}

#[test]
fn no_formats_is_an_error() {
    assert_eq!(choose_format(&Vec::new()), Err(AppError::NoSurfaceFormats));
}

#[test]
fn negotiates_full_configuration() {
    let c = caps(vec![fmt(0, false), fmt(1, true)], vec![10, 11], vec![20, 21]);
    let size = PhysicalSize { width: 640, height: 480 };
    let config = negotiate_config(&c, size).expect("all capabilities reported");
    assert_eq!(config.format, fmt(1, true));
    assert_eq!(config.width, 640);
    assert_eq!(config.height, 480);
    assert_eq!(config.present_mode, 10);
    assert_eq!(config.alpha_mode, 20);
    assert_eq!(config.desired_maximum_frame_latency, 2);
}

#[test]
fn empty_formats_fail_negotiation() {
    let c = caps(Vec::new(), vec![10], vec![20]);
    let size = PhysicalSize { width: 640, height: 480 };
    assert_eq!(negotiate_config(&c, size), Err(AppError::NoSurfaceFormats));
}

#[test]
fn empty_present_modes_fail_negotiation() {
    let c = caps(vec![fmt(0, true)], Vec::new(), vec![20]);
    let size = PhysicalSize { width: 640, height: 480 };
    assert_eq!(negotiate_config(&c, size), Err(AppError::NoPresentMode));
}

#[test]
fn empty_alpha_modes_fail_negotiation() {
    let c = caps(vec![fmt(0, true)], vec![10], Vec::new());
    let size = PhysicalSize { width: 640, height: 480 };
    assert_eq!(negotiate_config(&c, size), Err(AppError::NoAlphaMode));
}

#[test]
fn new_application_binds_the_window() {
    let c = caps(vec![fmt(3, false)], vec![10], vec![20]);
    let size = PhysicalSize { width: 800, height: 600 };
    let app = Application::new(WindowId(42), size, &c).expect("construction succeeds");
    assert_eq!(app.window, WindowId(42));
    assert_eq!(app.window(), WindowId(42));
    assert_eq!(app.config.format, fmt(3, false));
    assert_eq!(app.config.width, 800);
    assert_eq!(app.config.height, 600);
}

#[test]
fn new_application_constructs_nothing_on_failure() {
    let c = caps(Vec::new(), Vec::new(), Vec::new());
    let size = PhysicalSize { width: 800, height: 600 };
    assert_eq!(
        Application::new(WindowId(42), size, &c),
        Err(AppError::NoSurfaceFormats)
    );
}
