use kaiga::command::Color;
use kaiga::command::Command;
use kaiga::command::MagFilter;
use kaiga::device::Device;
use kaiga::drawer::Drawer;
use kaiga::drawer::draw_image;
use kaiga::shader::Capabilities;

fn full_caps() -> Capabilities {
    Capabilities {
        supports_glsl_120: true,
        supports_glsl_150: true,
        reported_version: String::from("GLSL 1.50"),
    }
}

#[test]
fn clear_then_submit_records_one_clear() {
    let mut drawer: Drawer<f32> = Drawer::new(800, 600);
    drawer.clear(0.25, 0.5, 0.75);
    let frame = drawer.submit();
    assert_eq!(frame.commands.len(), 1);
    match &frame.commands[0] {
        Command::Clear { color } => {
            assert_eq!((color.r, color.g, color.b), (0.25, 0.5, 0.75));
        }
        other => panic!("expected a clear command, got {:?}", other),
    }
}

#[test]
fn overlapping_rectangles_keep_issue_order() {
    let mut drawer: Drawer<f32> = Drawer::new(800, 600);
    drawer.draw_rectangle(0, 0, 100, 100, Color { r: 1.0, g: 0.0, b: 0.0 });
    drawer.draw_rectangle(50, 50, 100, 100, Color { r: 0.0, g: 0.0, b: 1.0 });
    let frame = drawer.submit();
    assert_eq!(frame.commands.len(), 2);
    match &frame.commands[1] {
        Command::Rectangle { x, y, color, .. } => {
            assert_eq!((*x, *y), (50, 50));
            assert_eq!((color.r, color.g, color.b), (0.0, 0.0, 1.0));
        }
        other => panic!("expected a rectangle command, got {:?}", other),
    }
}

#[test]
fn image_draws_always_sample_nearest() {
    let mut device = Device::new(full_caps()).unwrap();
    let checker_2x2: Vec<u8> = vec![
        255, 255, 255, 255, 0, 0, 0, 255,
        0, 0, 0, 255, 255, 255, 255, 255,
    ];
    let texture = device.create_texture(&checker_2x2, (2, 2)).unwrap();

    for scale in [1, 4, 100] {
        let mut drawer: Drawer<f32> = device.begin(800, 600);
        drawer.draw_image(&texture, 0, 0, scale);
        let frame = drawer.submit();
        match &frame.commands[0] {
            Command::Image { filter, smooth, model, .. } => {
                assert_eq!(*filter, MagFilter::Nearest);
                assert!(!*smooth);
                // The scaled extent of the checkerboard: texel blocks start
                // at multiples of the scale.
                assert_eq!(model.c0r0, 2 * scale as i64);
                assert_eq!(model.c1r1, 2 * scale as i64);
            }
            other => panic!("expected an image command, got {:?}", other),
        }
    }
}

#[test]
fn draw_image_scenario_records_scaled_model() {
    let mut device = Device::new(full_caps()).unwrap();
    let red_8x8: Vec<u8> = [255u8, 0, 0, 255].repeat(64);
    let texture = device.create_texture(&red_8x8, (8, 8)).unwrap();

    let mut drawer: Drawer<f32> = device.begin(1024, 768);
    drawer.draw_image(&texture, 10, 20, 2);
    let frame = drawer.submit();

    assert_eq!(frame.commands.len(), 1);
    match &frame.commands[0] {
        Command::Image { x, y, scale, texture: t, model, .. } => {
            assert_eq!((*x, *y, *scale), (10, 20, 2));
            assert_eq!((t.width, t.height), (8, 8));
            // translate(10, 20, 0) * scale(16, 16, 1)
            assert_eq!((model.c0r0, model.c1r1, model.c2r2), (16, 16, 1));
            assert_eq!((model.c3r0, model.c3r1, model.c3r2, model.c3r3), (10, 20, 0, 1));
        }
        other => panic!("expected an image command, got {:?}", other),
    }
}

#[test]
fn image_scale_at_the_extent_limit() {
    let mut device = Device::new(full_caps()).unwrap();
    let single_pixel: Vec<u8> = vec![0, 255, 0, 255];
    let texture = device.create_texture(&single_pixel, (1, 1)).unwrap();

    let mut drawer: Drawer<f32> = device.begin(800, 600);
    drawer.draw_image(&texture, 0, 0, i32::MAX);
    let frame = drawer.submit();
    match &frame.commands[0] {
        Command::Image { model, .. } => {
            assert_eq!(model.c0r0, i32::MAX as i64);
            assert_eq!(model.c1r1, i32::MAX as i64);
        }
        other => panic!("expected an image command, got {:?}", other),
    }
}

#[test]
fn free_draw_image_matches_the_method() {
    let mut device = Device::new(full_caps()).unwrap();
    let red_8x8: Vec<u8> = [255u8, 0, 0, 255].repeat(64);
    let texture = device.create_texture(&red_8x8, (8, 8)).unwrap();

    let mut by_method: Drawer<f32> = device.begin(1024, 768);
    by_method.draw_image(&texture, 10, 20, 2);
    let mut by_function: Drawer<f32> = device.begin(1024, 768);
    draw_image(&mut by_function, &texture, 10, 20, 2);

    assert_eq!(by_method.submit().commands, by_function.submit().commands);
}
