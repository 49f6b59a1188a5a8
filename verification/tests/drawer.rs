use kaiga::command::Color;
use kaiga::command::Command;
use kaiga::device::Device;
use kaiga::drawer::Drawer;
use kaiga::shader::Capabilities;

fn build_capabilities() -> Capabilities {
    Capabilities {
        supports_glsl_120: true,
        supports_glsl_150: true,
        reported_version: String::from("GLSL 1.50"),
    }
}

#[test]
fn build_device() {
    let device = Device::new(build_capabilities()).unwrap();
    drop(device);
}

#[test]
fn build_drawer() {
    let device = Device::new(build_capabilities()).unwrap();

    let drawer: Drawer<f32> = device.begin(1024, 768);

    drawer.submit();
}

#[test]
fn draw_rectangle() {
    let device = Device::new(build_capabilities()).unwrap();

    let mut drawer: Drawer<f32> = device.begin(1024, 768);

    drawer.draw_rectangle(12, 53, 566, 234, Color { r: 0.8, g: 1.0, b: 0.23 });

    let frame = drawer.submit();
    assert_eq!(frame.commands.len(), 1);
    match &frame.commands[0] {
        Command::Rectangle { x, y, width, height, color, .. } => {
            assert_eq!((*x, *y, *width, *height), (12, 53, 566, 234));
            assert_eq!((color.r, color.g, color.b), (0.8, 1.0, 0.23));
        }
        other => panic!("expected a rectangle command, got {:?}", other),
    }
}

#[test]
fn drawer_starts_fresh() {
    let drawer: Drawer<f32> = Drawer::new(640, 480);
    assert_eq!(drawer.projection.width, 640);
    assert_eq!(drawer.projection.height, 480);
    assert_eq!(
        (drawer.viewport.x, drawer.viewport.y, drawer.viewport.width, drawer.viewport.height),
        (0, 0, 640, 480),
    );
    assert!(drawer.commands.is_empty());
}
