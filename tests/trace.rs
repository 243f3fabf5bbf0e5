use raytracer::trace::{child_depth, refract_term, trace_step, RefractTerm, TraceStep, MAX_DEPTH};

#[test]
fn depth_six_is_black_whatever_the_scene() {
    assert_eq!(trace_step(6, true), TraceStep::Black);
    assert_eq!(trace_step(6, false), TraceStep::Black);
    assert_eq!(trace_step(u32::MAX, true), TraceStep::Black);
}

#[test]
fn depths_up_to_five_shade_or_show_background() {
    for depth in 0..=5u32 {
        assert_eq!(trace_step(depth, true), TraceStep::Shade);
        assert_eq!(trace_step(depth, false), TraceStep::Background);
    }
    assert_eq!(MAX_DEPTH, 5);
}

#[test]
fn secondary_rays_go_one_level_deeper() {
    assert_eq!(child_depth(0), 1);
    assert_eq!(child_depth(5), 6);
    // A chain of hits from the top level shades exactly six levels.
    let mut depth = 0u32;
    let mut levels = 0u32;
    while trace_step(depth, true) == TraceStep::Shade {
        levels += 1;
        depth = child_depth(depth);
    }
    assert_eq!(levels, 6);
    assert_eq!(depth, 6);
}

#[test]
fn refraction_is_traced_only_when_transmitted() {
    assert_eq!(refract_term(true, true), RefractTerm::Trace);
    assert_eq!(refract_term(true, false), RefractTerm::Black);
    assert_eq!(refract_term(false, true), RefractTerm::Black);
    assert_eq!(refract_term(false, false), RefractTerm::Black);
}
