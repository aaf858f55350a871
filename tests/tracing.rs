use raytracer::face::Face;
use raytracer::trace::{blend_for, trace_step, Blend, TraceStep};

#[test]
fn depth_zero_is_black_for_any_input() {
    for &hit in &[false, true] {
        for &refl in &[false, true] {
            for &transp in &[false, true] {
                assert_eq!(trace_step(0, hit, refl, transp), TraceStep::Black);
            }
        }
    }
}

#[test]
fn miss_takes_sky() {
    assert_eq!(trace_step(3, false, true, true), TraceStep::Sky);
}

#[test]
fn hit_spawns_by_material() {
    assert_eq!(
        trace_step(3, true, true, false),
        TraceStep::Shade { reflect: true, refract: false, child_depth: 2 }
    );
    assert_eq!(
        trace_step(1, true, false, true),
        TraceStep::Shade { reflect: false, refract: true, child_depth: 0 }
    );
}

#[test]
fn matte_surface_spawns_nothing() {
    assert_eq!(
        trace_step(3, true, false, false),
        TraceStep::Shade { reflect: false, refract: false, child_depth: 2 }
    );
    assert_eq!(blend_for(false, false, false), Blend::Local);
}

#[test]
fn blend_table() {
    assert_eq!(blend_for(true, true, true), Blend::Glass);
    assert_eq!(blend_for(false, true, true), Blend::Glass);
    assert_eq!(blend_for(true, true, false), Blend::Mirror);
    assert_eq!(blend_for(false, true, false), Blend::Mirror);
    assert_eq!(blend_for(true, false, true), Blend::Mirror);
    assert_eq!(blend_for(false, false, true), Blend::Local);
}

#[test]
fn face_first_in_order_wins() {
    assert_eq!(Face::first_near([true, true, true, true, true, true]), Face::MinX);
    assert_eq!(Face::first_near([false, true, true, false, false, false]), Face::MaxX);
    assert_eq!(Face::first_near([false, false, false, true, true, false]), Face::MaxY);
    assert_eq!(Face::first_near([false, false, false, false, true, false]), Face::MinZ);
}

#[test]
fn face_defaults_to_max_z() {
    assert_eq!(Face::first_near([false; 6]), Face::MaxZ);
}

#[test]
fn face_normals() {
    assert_eq!(Face::MinX.normal(), (-1, 0, 0));
    assert_eq!(Face::MaxX.normal(), (1, 0, 0));
    assert_eq!(Face::MinY.normal(), (0, -1, 0));
    assert_eq!(Face::MaxY.normal(), (0, 1, 0));
    assert_eq!(Face::MinZ.normal(), (0, 0, -1));
    assert_eq!(Face::MaxZ.normal(), (0, 0, 1));
}

#[test]
fn top_face_hit_has_up_normal() {
    // A point on the top face of a box, away from its edges.
    let f = Face::first_near([false, false, false, true, false, false]);
    assert_eq!(f.normal(), (0, 1, 0));
}
