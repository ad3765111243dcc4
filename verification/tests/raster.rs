use solar_render::fixed::SCALE;
use solar_render::fragment::Fragment;
use solar_render::triangle::{barycentric_coordinates, calculate_bounding_box, pixel_fragment, triangle};
use solar_render::vec3::Vec3Fx;
use solar_render::vertex::Vertex;

fn px(units: i64) -> i64 {
    units * SCALE
}

fn screen_vertex(x: i64, y: i64, z: i64) -> Vertex {
    let mut v = Vertex::new(Vec3Fx::zeros(), Vec3Fx::new(0, 0, SCALE), Vec3Fx::zeros());
    v.transformed_position = Vec3Fx::new(x, y, z);
    v.transformed_normal = Vec3Fx::new(0, 0, SCALE);
    v
}

#[test]
fn flat_triangle_covers_lower_left_pixels() {
    // A right triangle over pixels (0,0)-(4,0)-(0,4), flat at depth zero,
    // constant normal and object position: every covered pixel gets the
    // same interpolated attributes.
    let v1 = screen_vertex(px(0), px(0), 0);
    let v2 = screen_vertex(px(4), px(0), 0);
    let v3 = screen_vertex(px(0), px(4), 0);
    let frags = triangle(&v1, &v2, &v3);
    // Accepted pixel centers (x+0.5, y+0.5) satisfy x >= 0, y >= 0 and
    // (x+0.5) + (y+0.5) <= 4, so x + y <= 3: ten pixels.
    assert_eq!(frags.len(), 10);
    for f in &frags {
        assert!(f.x >= 0 && f.y >= 0 && f.x + f.y <= 3);
        assert_eq!(f.depth, 0);
        assert_eq!(f.normal, Vec3Fx::new(0, 0, SCALE));
        assert_eq!(f.vertex_position, Vec3Fx::zeros());
        assert_eq!(f.intensity, SCALE);
        assert_eq!(f.color.r, 255);
        assert_eq!(f.color.g, 255);
        assert_eq!(f.color.b, 255);
    }
    // No pixel appears twice.
    for i in 0..frags.len() {
        for j in 0..i {
            assert!(frags[i].x != frags[j].x || frags[i].y != frags[j].y);
        }
    }
}

#[test]
fn collinear_vertices_yield_zero_fragments() {
    let v1 = screen_vertex(0, 0, 0);
    let v2 = screen_vertex(px(1), px(1), 0);
    let v3 = screen_vertex(px(2), px(2), 0);
    let frags = triangle(&v1, &v2, &v3);
    assert_eq!(frags.len(), 0);
}

#[test]
fn coincident_vertices_yield_zero_fragments() {
    let v = screen_vertex(px(3), px(3), px(1));
    let frags = triangle(&v, &v, &v);
    assert_eq!(frags.len(), 0);
}

#[test]
fn depth_interpolation_is_affine() {
    // Depths 0, 4000, 8000 at the corners; the pixel center (1.5, 1.5)
    // carries weights (0.25, 0.375, 0.375), so the exact interpolated
    // depth is 0.375 * 4000 + 0.375 * 8000 = 4500.
    let v1 = screen_vertex(px(0), px(0), 0);
    let v2 = screen_vertex(px(4), px(0), 4000);
    let v3 = screen_vertex(px(0), px(4), 8000);
    let f = pixel_fragment(&v1, &v2, &v3, 1, 1).expect("pixel (1,1) is inside");
    assert_eq!(f.depth, 4500);
}

#[test]
fn interior_point_depth_is_exact_affine_combination() {
    let v1 = screen_vertex(px(0), px(0), 1000);
    let v2 = screen_vertex(px(4), px(0), 3000);
    let v3 = screen_vertex(px(0), px(4), 2000);
    let f = pixel_fragment(&v1, &v2, &v3, 1, 0).expect("pixel (1,0) is inside");
    // Weights at (1.5, 0.5) are (0.5, 0.375, 0.125), so the exact depth
    // is 0.5*1000 + 0.375*3000 + 0.125*2000 = 1875.
    assert_eq!(f.depth, 1875);
}

#[test]
fn vertical_edge_midpoint_depth_is_mean_of_endpoints() {
    // A vertical edge from the center of pixel (0,0) to the center of
    // pixel (0,4): the center of pixel (0,2) is its exact midpoint, with
    // weights (0.5, 0.5, 0) — the interpolated depth is the mean of the
    // endpoint depths.
    let v1 = screen_vertex(5000, 5000, 1000);
    let v2 = screen_vertex(5000, px(4) + 5000, 3000);
    let v3 = screen_vertex(px(4) + 5000, px(2) + 5000, 9999);
    let f = pixel_fragment(&v1, &v2, &v3, 0, 2).expect("the midpoint pixel is covered");
    assert_eq!(f.depth, 2000);
}

#[test]
fn barycentric_weights_at_vertex_are_unit() {
    let a = Vec3Fx::new(px(0), px(0), 0);
    let b = Vec3Fx::new(px(4), px(0), 0);
    let c = Vec3Fx::new(px(0), px(4), 0);
    // The query point is vertex a itself.
    let (n1, n2, n3, den) = barycentric_coordinates(px(0), px(0), &a, &b, &c).expect("not degenerate");
    assert_eq!(n2, 0);
    assert_eq!(n3, 0);
    assert_eq!(n1, den);
    assert!(den != 0);
}

#[test]
fn barycentric_weights_sum_to_denominator() {
    let a = Vec3Fx::new(px(0), px(0), 0);
    let b = Vec3Fx::new(px(7), px(1), 0);
    let c = Vec3Fx::new(px(2), px(5), 0);
    let (n1, n2, n3, den) = barycentric_coordinates(px(2) + 5000, px(1) + 5000, &a, &b, &c)
        .expect("not degenerate");
    assert_eq!(n1 + n2 + n3, den);
}

#[test]
fn barycentric_rejects_degenerate() {
    let a = Vec3Fx::new(0, 0, 0);
    let b = Vec3Fx::new(px(1), 0, 0);
    let c = Vec3Fx::new(px(2), 0, 0);
    assert!(barycentric_coordinates(5000, 5000, &a, &b, &c).is_none());
}

#[test]
fn bounding_box_floor_and_ceiling() {
    let a = Vec3Fx::new(-15000, 2500, 0);
    let b = Vec3Fx::new(35000, -5000, 0);
    let c = Vec3Fx::new(5000, 47000, 0);
    let (min_x, min_y, max_x, max_y) = calculate_bounding_box(&a, &b, &c);
    assert_eq!(min_x, -2);
    assert_eq!(min_y, -1);
    assert_eq!(max_x, 4);
    assert_eq!(max_y, 5);
}

#[test]
fn pixel_outside_triangle_yields_nothing() {
    let v1 = screen_vertex(px(0), px(0), 0);
    let v2 = screen_vertex(px(4), px(0), 0);
    let v3 = screen_vertex(px(0), px(4), 0);
    assert!(pixel_fragment(&v1, &v2, &v3, 3, 3).is_none());
}

#[test]
fn fragment_new_carries_fields() {
    let f = Fragment::new(
        3,
        7,
        1234,
        solar_render::color::Color::new(1, 2, 3),
        Vec3Fx::new(0, 0, SCALE),
        Vec3Fx::new(10, 20, 30),
        5000,
    );
    assert_eq!(f.x, 3);
    assert_eq!(f.y, 7);
    assert_eq!(f.depth, 1234);
    assert_eq!(f.color.g, 2);
    assert_eq!(f.intensity, 5000);
}
