use headless_raster::cache::TargetAction;
use headless_raster::export::to_rgba_image;
use headless_raster::geom::{PixelSize, ViewBox, UNITS_PER_PIXEL};
use headless_raster::readback::ReadbackData;
use headless_raster::session::Session;
use headless_raster::RenderError;

fn square_view_box(pixels: i64) -> ViewBox {
    ViewBox {
        origin_x: 0,
        origin_y: 0,
        size_x: pixels * UNITS_PER_PIXEL,
        size_y: pixels * UNITS_PER_PIXEL,
    }
}

#[test]
fn test_render() {
    // An empty scene over (0,0)-(100,100), no background: 100 x 100 pixels,
    // all fully transparent.
    let mut session = Session::new();
    let vb = square_view_box(100);

    let (plan, action) = session.begin_render(&vb);
    assert_eq!(plan.size, PixelSize { width: 100, height: 100 });
    assert_eq!(action, TargetAction::Create);

    let readback = ReadbackData::Rgba8(vec![0u8; 100 * 100 * 4]);
    let buffer = session.finish_render(plan.size, readback).unwrap();
    assert_eq!(buffer.width, 100);
    assert_eq!(buffer.height, 100);
    assert!(buffer.fully_transparent());
}

#[test]
fn rendering_twice_is_pixel_identical() {
    let mut session = Session::new();
    let vb = square_view_box(8);
    let bytes: Vec<u8> = (0..8 * 8 * 4).map(|i| (i % 251) as u8).collect();

    let (plan1, _) = session.begin_render(&vb);
    let first = session
        .finish_render(plan1.size, ReadbackData::Rgba8(bytes.clone()))
        .unwrap();

    let (plan2, action2) = session.begin_render(&vb);
    let second = session
        .finish_render(plan2.size, ReadbackData::Rgba8(bytes))
        .unwrap();

    assert_eq!(action2, TargetAction::Reuse);
    assert_eq!(first, second);
    assert_eq!(first.data, second.data);
}

#[test]
fn second_render_of_another_size_gets_its_own_dimensions() {
    let mut session = Session::new();

    let (plan1, action1) = session.begin_render(&square_view_box(100));
    assert_eq!(action1, TargetAction::Create);
    assert_eq!(plan1.size, PixelSize { width: 100, height: 100 });

    let (plan2, action2) = session.begin_render(&square_view_box(130));
    assert_eq!(action2, TargetAction::Resize);
    assert_eq!(plan2.size, PixelSize { width: 130, height: 130 });
    assert_eq!(session.cache.allocations, 2);

    let readback = ReadbackData::Rgba8(vec![0u8; 130 * 130 * 4]);
    let buffer = session.finish_render(plan2.size, readback).unwrap();
    assert_eq!(buffer.width, 130);
    assert_eq!(buffer.height, 130);
}

#[test]
fn a_non_eight_bit_readback_is_refused() {
    let mut session = Session::new();
    let (plan, _) = session.begin_render(&square_view_box(10));

    let result = session.finish_render(plan.size, ReadbackData::Unsupported);
    assert_eq!(result, Err(RenderError::UnsupportedPixelFormat));
}

#[test]
fn a_short_readback_is_refused_with_both_counts() {
    let mut session = Session::new();
    let (plan, _) = session.begin_render(&square_view_box(10));

    let result = session.finish_render(plan.size, ReadbackData::Rgba8(vec![0u8; 7]));
    assert_eq!(
        result,
        Err(RenderError::BufferSizeMismatch { expected: 400, actual: 7 })
    );
}

#[test]
fn a_buffer_with_any_alpha_is_not_transparent() {
    let mut session = Session::new();
    let (plan, _) = session.begin_render(&square_view_box(2));

    let mut bytes = vec![0u8; 2 * 2 * 4];
    bytes[7] = 255;
    let buffer = session
        .finish_render(plan.size, ReadbackData::Rgba8(bytes))
        .unwrap();
    assert!(!buffer.fully_transparent());
}

#[test]
fn packing_into_an_image_keeps_dimensions_and_bytes() {
    let mut session = Session::new();
    let vb = ViewBox {
        origin_x: 0,
        origin_y: 0,
        size_x: 2 * UNITS_PER_PIXEL,
        size_y: 3 * UNITS_PER_PIXEL,
    };
    let (plan, _) = session.begin_render(&vb);

    let bytes: Vec<u8> = (0..2 * 3 * 4).map(|i| i as u8).collect();
    let buffer = session
        .finish_render(plan.size, ReadbackData::Rgba8(bytes.clone()))
        .unwrap();

    let image = to_rgba_image(buffer);
    assert_eq!(image.dimensions(), (2, 3));
    assert_eq!(image.into_bytes(), bytes);
}

#[test]
fn teardown_releases_exactly_once() {
    let mut session = Session::new();
    assert!(session.terminate());
    assert!(!session.terminate());
}

#[test]
fn failure_stages_are_named() {
    assert_eq!(RenderError::UnsupportedPixelFormat.stage(), "pixel readback format");
    assert_eq!(
        RenderError::BufferSizeMismatch { expected: 400, actual: 7 }.stage(),
        "pixel buffer packing"
    );
    assert_eq!(RenderError::Terminate.stage(), "session teardown");
}
