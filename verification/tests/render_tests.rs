use raycast::camera::{image_height, Camera};
use raycast::render::{channel_byte, ppm_header, render, render_row, write_color};
use raycast::shade::{default_scene, ray_color};
use raycast::ray::Ray;
use raycast::vec3::Vec3;

#[test]
fn derived_heights() {
    assert_eq!(image_height(400), 225);
    assert_eq!(image_height(2), 1);
    assert_eq!(image_height(16), 9);
    assert_eq!(image_height(4096), 2304);
}

#[test]
fn camera_geometry() {
    let cam = Camera::new();
    let ll = cam.lower_left_corner;
    assert_eq!((ll.x, ll.y, ll.z, ll.d), (-16, -9, -9, 9));
    let h = cam.horizontal;
    assert_eq!((h.x, h.y, h.z, h.d), (32, 0, 0, 9));
    let v = cam.vertical;
    assert_eq!((v.x, v.y, v.z, v.d), (0, 2, 0, 1));
    let o = cam.origin;
    assert_eq!((o.x, o.y, o.z, o.d), (0, 0, 0, 1));
}

#[test]
fn hit_color_is_solid_red() {
    let scene = default_scene();
    let ray = Ray::new(Vec3::new(0, 0, 0, 1), Vec3::new(0, 0, -1, 1));
    let c = ray_color(&ray, &scene);
    // Exactly (1, 0, 0).
    assert_eq!(c.x * 1, c.d);
    assert_eq!(c.y, 0);
    assert_eq!(c.z, 0);
}

#[test]
fn straight_up_is_pure_sky_blue() {
    let scene = default_scene();
    let ray = Ray::new(Vec3::new(0, 0, 0, 1), Vec3::new(0, 1, 0, 1));
    let c = ray_color(&ray, &scene);
    // Exactly (0.5, 0.7, 1.0): t == 1.
    assert_eq!((c.x, c.y, c.z, c.d), (10, 14, 20, 20));
}

#[test]
fn straight_down_is_pure_white() {
    let scene = default_scene();
    let ray = Ray::new(Vec3::new(0, 0, 0, 1), Vec3::new(0, -1, 0, 1));
    let c = ray_color(&ray, &scene);
    // Exactly (1, 1, 1): t == 0.
    assert_eq!((c.x, c.y, c.z, c.d), (20, 20, 20, 20));
}

#[test]
fn gradient_above_and_below_horizon() {
    let scene = default_scene();
    // Direction (3, 4, 0): squared norm 25, so t = (4 + 5) / 10 > 1/2.
    let up = ray_color(&Ray::new(Vec3::new(0, 0, 0, 1), Vec3::new(3, 4, 0, 1)), &scene);
    assert_eq!((up.x, up.y, up.z, up.d), (55, 73, 100, 100));
    // Direction (3, -4, 0): t = (−4 + 5) / 10 < 1/2.
    let down = ray_color(&Ray::new(Vec3::new(0, 0, 0, 1), Vec3::new(3, -4, 0, 1)), &scene);
    assert_eq!((down.x, down.y, down.z, down.d), (95, 97, 100, 100));
}

#[test]
fn channel_bytes_clamp_and_scale() {
    assert_eq!(channel_byte(-1, 1), 0);
    assert_eq!(channel_byte(0, 5), 0);
    assert_eq!(channel_byte(2, 1), 255);
    assert_eq!(channel_byte(1, 1), 255);
    // 0.5 * 255.999 = 127.9995, truncated to 127.
    assert_eq!(channel_byte(1, 2), 127);
    // 0.7 * 255.999 = 179.1993, truncated to 179.
    assert_eq!(channel_byte(7, 10), 179);
}

#[test]
fn color_line_format_with_clamping() {
    let mut out: Vec<u8> = Vec::new();
    write_color(&mut out, &Vec3::new(-1, 0, 2, 1));
    assert_eq!(out, b"0 0 255\n");
}

#[test]
fn header_text() {
    assert_eq!(ppm_header(400, 225), b"P3\n400 225\n255\n");
    assert_eq!(ppm_header(2, 1), b"P3\n2 1\n255\n");
}

#[test]
fn tiny_image_format() {
    let out = render(2);
    let text = String::from_utf8(out).expect("ascii output");
    assert!(text.starts_with("P3\n2 1\n255\n"));
    let body = &text["P3\n2 1\n255\n".len()..];
    let lines: Vec<&str> = body.lines().collect();
    assert_eq!(lines.len(), 2);
    for line in lines {
        let fields: Vec<&str> = line.split_whitespace().collect();
        assert_eq!(fields.len(), 3);
        for f in fields {
            let v: u32 = f.parse().expect("an integer channel value");
            assert!(v <= 255);
        }
    }
}

#[test]
fn tiny_image_pixels() {
    // Both pixels of the 2 by 1 image look down-forward and miss the
    // sphere; their gradient color is identical by left-right symmetry.
    let out = render(2);
    let text = String::from_utf8(out).expect("ascii output");
    assert_eq!(text, "P3\n2 1\n255\n220 234 255\n220 234 255\n");
}

#[test]
fn render_rows_compose_the_image() {
    let w: u32 = 16;
    let h = image_height(w);
    let mut expect = ppm_header(w, h);
    let mut j = h;
    while j > 0 {
        j -= 1;
        expect.extend_from_slice(&render_row(j, w, h));
    }
    assert_eq!(render(w), expect);
}

#[test]
fn rendering_is_deterministic() {
    assert_eq!(render(2), render(2));
    assert_eq!(render(400), render(400));
}

#[test]
fn default_image_has_full_size() {
    let out = render(400);
    let text = String::from_utf8(out).expect("ascii output");
    assert!(text.starts_with("P3\n400 225\n255\n"));
    // One line per pixel after the three header lines.
    assert_eq!(text.lines().count(), 3 + 400 * 225);
    // The center of the image looks straight at the sphere: solid red.
    let center_line = text.lines().nth(3 + 112 * 400 + 200).expect("center pixel");
    assert_eq!(center_line, "255 0 0");
}
