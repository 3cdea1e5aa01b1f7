use model_host::model::{Generated, HostError, Model};
use model_host::model_types::{ModelError, Shape, Trap, Vertex};

fn corners(count: u32) -> Vec<Vertex> {
    (0..count).map(|i| Vertex::new(i, 2 * i, 3 * i)).collect()
}

#[test]
fn a_vertex_holds_its_three_coordinates() {
    let vertex = Vertex::new(0x3f80_0000, 0x4000_0000, 0xc040_0000);
    assert_eq!(vertex, Vertex { x: 0x3f80_0000, y: 0x4000_0000, z: 0xc040_0000 });
    assert_eq!(f32::from_bits(vertex.x), 1.0);
    assert_eq!(f32::from_bits(vertex.y), 2.0);
    assert_eq!(f32::from_bits(vertex.z), -3.0);
}

#[test]
fn a_shape_without_faces_is_well_formed() {
    assert!(Shape { vertices: Vec::new(), faces: Vec::new() }.is_well_formed());
    assert!(Shape { vertices: corners(3), faces: Vec::new() }.is_well_formed());
}

#[test]
fn faces_within_the_vertices_are_well_formed() {
    let shape = Shape { vertices: corners(4), faces: vec![(0, 1, 2), (3, 3, 3), (2, 0, 3)] };
    assert!(shape.is_well_formed());
    assert_eq!(shape.first_bad_face(), None);
}

#[test]
fn an_index_equal_to_the_number_of_vertices_is_out_of_range() {
    for bad in [(4, 0, 0), (0, 4, 0), (0, 0, 4)] {
        let shape = Shape { vertices: corners(4), faces: vec![(0, 1, 2), bad, (1, 2, 3)] };
        assert!(!shape.is_well_formed());
        assert_eq!(shape.first_bad_face(), Some(1));
    }
}

#[test]
fn the_first_bad_face_is_reported() {
    let shape = Shape {
        vertices: corners(2),
        faces: vec![(0, 1, 0), (1, 1, 1), (0, 2, 0), (9, 9, 9)],
    };
    assert_eq!(shape.first_bad_face(), Some(2));
}

#[test]
fn any_face_of_a_shape_without_vertices_is_out_of_range() {
    let shape = Shape { vertices: Vec::new(), faces: vec![(0, 0, 0)] };
    assert!(!shape.is_well_formed());
    assert_eq!(shape.first_bad_face(), Some(0));
}

#[test]
fn the_largest_index_is_out_of_range() {
    let shape = Shape { vertices: corners(3), faces: vec![(u32::MAX, 0, 0)] };
    assert_eq!(shape.first_bad_face(), Some(0));
}

#[test]
fn a_model_starts_with_its_instance_and_no_arguments() {
    let model = Model::new("instance");
    assert_eq!(model.instance, "instance");
    assert_eq!(model.arguments.get("width"), None);
}

#[test]
fn a_shape_is_handed_on_as_it_is() {
    let model = Model::new(0u8);
    let shape = Shape { vertices: corners(3), faces: vec![(0, 1, 2), (2, 1, 5)] };
    let expected = Shape { vertices: corners(3), faces: vec![(0, 1, 2), (2, 1, 5)] };
    assert_eq!(model.generate(Ok(Ok(shape))), Ok(Generated::Shape(expected)));
}

#[test]
fn the_models_own_error_is_a_result_and_no_failure() {
    let model = Model::new(0u8);
    let error = ModelError { message: "The \"width\" argument is missing".to_string() };
    assert_eq!(
        model.generate(Ok(Err(error))),
        Ok(Generated::Declined(ModelError {
            message: "The \"width\" argument is missing".to_string()
        }))
    );
}

#[test]
fn a_trap_while_generating_is_a_failure() {
    let model = Model::new(0u8);
    let trap = Trap { message: "stack overflow".to_string() };
    assert_eq!(
        model.generate(Err(trap)),
        Err(HostError::Generator(Trap { message: "stack overflow".to_string() }))
    );
}
