use rust_sdl2_webgl::bits::{Vec3Bits, Vec4Bits};
use rust_sdl2_webgl::render::immediate_render::{ImmediateRender, ImmediateRenderDrawcall};

fn v3(x: f32, y: f32, z: f32) -> Vec3Bits {
    Vec3Bits { x: x.to_bits(), y: y.to_bits(), z: z.to_bits() }
}

fn v4(x: f32, y: f32, z: f32, w: f32) -> Vec4Bits {
    Vec4Bits { x: x.to_bits(), y: y.to_bits(), z: z.to_bits(), w: w.to_bits() }
}

fn call(start_vertex: usize, vertex_count: usize) -> ImmediateRenderDrawcall {
    ImmediateRenderDrawcall { start_vertex, vertex_count }
}

#[test]
fn compaction_merges_contiguous_runs_and_keeps_gaps() {
    let draws = vec![call(0, 3), call(3, 3), call(9, 3)];
    let compacted = ImmediateRender::compact_draw_calls(&draws);
    assert_eq!(compacted, vec![call(0, 6), call(9, 3)]);
}

#[test]
fn compaction_all_contiguous_yields_one_call() {
    let draws = vec![call(0, 3), call(3, 3), call(6, 3), call(9, 3)];
    let compacted = ImmediateRender::compact_draw_calls(&draws);
    assert_eq!(compacted, vec![call(0, 12)]);
}

#[test]
fn compaction_all_contiguous_lines_from_offset() {
    let draws = vec![call(6, 2), call(8, 2), call(10, 2)];
    let compacted = ImmediateRender::compact_draw_calls(&draws);
    assert_eq!(compacted, vec![call(6, 6)]);
}

#[test]
fn compaction_of_nothing_is_nothing() {
    let draws: Vec<ImmediateRenderDrawcall> = Vec::new();
    let compacted = ImmediateRender::compact_draw_calls(&draws);
    assert!(compacted.is_empty());
}

#[test]
fn empty_frame_draws_nothing() {
    let mut render = ImmediateRender::new(16);
    render.clear();
    let frame = render.prepare_draw();
    assert!(frame.vertex_data.is_empty());
    assert!(frame.triangle_calls.is_empty());
    assert!(frame.line_calls.is_empty());
}

#[test]
fn vertex_count_is_three_per_triangle_plus_two_per_line() {
    let mut render = ImmediateRender::new(1024);
    render.clear();
    let p = v3(0.0, 0.0, 0.0);
    let c = v4(1.0, 1.0, 1.0, 1.0);
    render.add_triangle(&p, &c, &p, &c, &p, &c);
    render.add_triangle(&p, &c, &p, &c, &p, &c);
    render.add_line(&p, &c, &p, &c);
    render.add_line(&p, &c, &p, &c);
    render.add_line(&p, &c, &p, &c);
    let frame = render.prepare_draw();
    // 2 triangles and 3 lines: 3*2 + 2*3 = 12 vertices, 8 words each.
    assert_eq!(frame.vertex_data.len(), 12 * 8);
    // All triangle vertices are contiguous, then all line vertices.
    assert_eq!(frame.triangle_calls, vec![call(0, 6)]);
    assert_eq!(frame.line_calls, vec![call(6, 6)]);
}

#[test]
fn interleaving_topologies_splits_runs() {
    let mut render = ImmediateRender::new(1024);
    render.clear();
    let p = v3(2.0, 3.0, 4.0);
    let c = v4(0.5, 0.5, 0.5, 1.0);
    render.add_triangle(&p, &c, &p, &c, &p, &c); // vertices 0..3
    render.add_line(&p, &c, &p, &c); // vertices 3..5
    render.add_triangle(&p, &c, &p, &c, &p, &c); // vertices 5..8
    let frame = render.prepare_draw();
    assert_eq!(frame.triangle_calls, vec![call(0, 3), call(5, 3)]);
    assert_eq!(frame.line_calls, vec![call(3, 2)]);
}

#[test]
fn vertex_words_lay_out_position_then_colour() {
    let mut render = ImmediateRender::new(8);
    render.clear();
    render.add_line(
        &v3(1.5, -2.0, 3.25),
        &v4(0.25, 0.5, 0.75, 1.0),
        &v3(4.0, 5.0, -6.5),
        &v4(0.0, 1.0, 0.0, 0.5),
    );
    let frame = render.prepare_draw();
    let expected: Vec<u32> = [
        1.5f32, -2.0, 3.25, 1.0, 0.25, 0.5, 0.75, 1.0, // first vertex, w forced to 1
        4.0, 5.0, -6.5, 1.0, 0.0, 1.0, 0.0, 0.5, // second vertex
    ]
    .iter()
    .map(|f| f.to_bits())
    .collect();
    assert_eq!(frame.vertex_data, expected);
    assert_eq!(frame.line_calls, vec![call(0, 2)]);
    assert!(frame.triangle_calls.is_empty());
}

#[test]
fn compaction_of_a_single_descriptor_is_itself() {
    let draws = vec![call(4, 2)];
    let compacted = ImmediateRender::compact_draw_calls(&draws);
    assert_eq!(compacted, vec![call(4, 2)]);
}

#[test]
fn frame_exactly_at_capacity_still_draws() {
    let mut render = ImmediateRender::new(5);
    render.clear();
    let p = v3(0.0, 0.0, 0.0);
    let c = v4(1.0, 0.0, 0.0, 1.0);
    render.add_triangle(&p, &c, &p, &c, &p, &c);
    render.add_line(&p, &c, &p, &c);
    assert_eq!(render.vertex_count(), 5);
    assert_eq!(render.max_vertex_count(), 5);
    let frame = render.prepare_draw();
    assert_eq!(frame.vertex_data.len(), 5 * 8);
    assert_eq!(frame.triangle_calls, vec![call(0, 3)]);
    assert_eq!(frame.line_calls, vec![call(3, 2)]);
}

#[test]
fn clear_resets_the_frame() {
    let mut render = ImmediateRender::new(64);
    render.clear();
    let p = v3(0.0, 1.0, 0.0);
    let c = v4(0.7, 0.7, 0.7, 1.0);
    render.add_triangle(&p, &c, &p, &c, &p, &c);
    render.clear();
    render.add_line(&p, &c, &p, &c);
    let frame = render.prepare_draw();
    assert!(frame.triangle_calls.is_empty());
    assert_eq!(frame.line_calls, vec![call(0, 2)]);
    assert_eq!(frame.vertex_data.len(), 2 * 8);
}
