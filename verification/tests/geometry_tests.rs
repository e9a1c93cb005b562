use foray_render::geometry::GeometryBuffers;

#[test]
fn pentagon_has_five_vertices_and_nine_indices() {
    let g = GeometryBuffers::pentagon();
    assert_eq!(g.vertex_count, 5);
    assert_eq!(g.indices, vec![0u16, 1, 4, 1, 2, 4, 2, 3, 4]);
    assert_eq!(g.index_count(), 9);
}

#[test]
fn new_accepts_indices_that_reference_existing_vertices() {
    let g = GeometryBuffers::new(3, vec![0, 1, 2, 2, 1, 0]).expect("all indices are in range");
    assert_eq!(g.vertex_count, 3);
    assert_eq!(g.index_count(), 6);
}

#[test]
fn new_rejects_an_index_past_the_vertex_count() {
    assert!(GeometryBuffers::new(3, vec![0, 1, 3]).is_none());
}

#[test]
fn new_rejects_any_index_with_no_vertices() {
    assert!(GeometryBuffers::new(0, vec![0]).is_none());
}

#[test]
fn new_accepts_an_empty_index_list() {
    let g = GeometryBuffers::new(0, vec![]).expect("nothing to reference");
    assert_eq!(g.index_count(), 0);
}
