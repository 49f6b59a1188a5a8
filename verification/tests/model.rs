use kaiga::command::Color;
use kaiga::command::Command;
use kaiga::drawer::Drawer;
use kaiga::matrix::Mat4;
use kaiga::matrix::make_model_mat;

fn mat_to_f32(m: &Mat4) -> [[f32; 4]; 4] {
    [
        [m.c0r0 as f32, m.c0r1 as f32, m.c0r2 as f32, m.c0r3 as f32],
        [m.c1r0 as f32, m.c1r1 as f32, m.c1r2 as f32, m.c1r3 as f32],
        [m.c2r0 as f32, m.c2r1 as f32, m.c2r2 as f32, m.c2r3 as f32],
        [m.c3r0 as f32, m.c3r1 as f32, m.c3r2 as f32, m.c3r3 as f32],
    ]
}

#[test]
fn rectangle_model_matrix_exact() {
    let mut drawer: Drawer<f32> = Drawer::new(1024, 768);
    drawer.draw_rectangle(12, 53, 566, 234, Color { r: 0.8, g: 1.0, b: 0.23 });
    let frame = drawer.submit();
    match &frame.commands[0] {
        Command::Rectangle { model, .. } => {
            let expected = [
                [566.0, 0.0, 0.0, 0.0],
                [0.0, 234.0, 0.0, 0.0],
                [0.0, 0.0, 1.0, 0.0],
                [12.0, 53.0, 0.0, 1.0],
            ];
            assert_eq!(mat_to_f32(model), expected);
        }
        other => panic!("expected a rectangle command, got {:?}", other),
    }
}

#[test]
fn rectangle_model_matrix_matches_cgmath() {
    let trans = cgmath::Matrix4::from_translation(cgmath::Vector3::new(12.0f32, 53.0, 0.0));
    let scale = cgmath::Matrix4::from_nonuniform_scale(566.0f32, 234.0, 1.0);
    let expected: [[f32; 4]; 4] = (trans * scale).into();

    let model = make_model_mat(12, 53, 566, 234);
    assert_eq!(mat_to_f32(&model), expected);
}

#[test]
fn image_model_matrix_matches_cgmath() {
    let trans = cgmath::Matrix4::from_translation(cgmath::Vector3::new(10.0f32, 20.0, 0.0));
    let scale = cgmath::Matrix4::from_nonuniform_scale(16.0f32, 16.0, 1.0);
    let expected: [[f32; 4]; 4] = (trans * scale).into();

    let model = make_model_mat(10, 20, 8 * 2, 8 * 2);
    assert_eq!(mat_to_f32(&model), expected);
}

#[test]
fn projection_corners_match_cgmath_ortho() {
    let drawer: Drawer<f32> = Drawer::new(100, 50);
    let proj = cgmath::ortho(
        0.0f32,
        drawer.projection.width as f32,
        drawer.projection.height as f32,
        0.0,
        0.0,
        100.0,
    );
    let top_left = proj * cgmath::Vector4::new(0.0f32, 0.0, 0.0, 1.0);
    assert!((top_left.x + 1.0).abs() < 1e-5);
    assert!((top_left.y - 1.0).abs() < 1e-5);
    let bottom_right = proj * cgmath::Vector4::new(100.0f32, 50.0, 0.0, 1.0);
    assert!((bottom_right.x - 1.0).abs() < 1e-5);
    assert!((bottom_right.y + 1.0).abs() < 1e-5);
}
