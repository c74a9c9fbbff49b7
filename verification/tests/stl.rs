use coldfusion::stl::{load_stl_from_bytes, StlError};

const ONE_FACET: &[u8] = b"solid foobar
      facet normal 0.1 0.2 0.3
          outer loop
              vertex 1 2 3
              vertex 4 5 6e-15
              vertex 7 8 9.87654321
          endloop
      endfacet
      endsolid foobar";

#[test]
fn loads_ascii_stl() {
    let mesh = load_stl_from_bytes(ONE_FACET).ok().unwrap();
    assert_eq!(mesh.vertices.len(), 3);
    assert_eq!(mesh.faces.len(), 1);
    assert_eq!(mesh.faces[0].vertices, [0, 1, 2]);
    assert_eq!(mesh.vertices[1][0], 4.0);
}

#[test]
fn shared_vertices_are_indexed_once() {
    let bytes = b"solid foobar
        facet normal 27 28 29
            outer loop
                vertex 7 8 9
                vertex 4 5 6
                vertex 7 8 9
            endloop
        endfacet
        endsolid foobar";
    let mesh = load_stl_from_bytes(bytes).ok().unwrap();
    assert_eq!(mesh.vertices.len(), 2);
    assert_eq!(mesh.faces[0].vertices, [0, 1, 0]);
}

#[test]
fn loads_empty_binary_stl() {
    let bytes = [0u8; 84];
    let mesh = load_stl_from_bytes(&bytes).ok().unwrap();
    assert_eq!(mesh.vertices.len(), 0);
    assert_eq!(mesh.faces.len(), 0);
}

#[test]
fn loads_binary_stl_with_one_facet() {
    let mut bytes = vec![0u8; 80];
    bytes.extend_from_slice(&1u32.to_le_bytes());
    let floats: [f32; 12] = [0.0, 0.0, 1.0, 0.0, 0.0, 0.0, 1.0, 0.0, 0.0, 0.0, 1.0, 0.0];
    for f in floats {
        bytes.extend_from_slice(&f.to_le_bytes());
    }
    bytes.extend_from_slice(&[0, 0]);
    let mesh = load_stl_from_bytes(&bytes).ok().unwrap();
    assert_eq!(mesh.vertices.len(), 3);
    assert_eq!(mesh.faces[0].vertices, [0, 1, 2]);
    assert_eq!(mesh.faces[0].normal[2], 1.0);
}

#[test]
fn truncated_binary_stl_is_unreadable() {
    let mut bytes = vec![0u8; 80];
    bytes.extend_from_slice(&2u32.to_le_bytes());
    bytes.extend_from_slice(&[0u8; 60]);
    assert!(matches!(load_stl_from_bytes(&bytes), Err(StlError::Unreadable(_))));
}

#[test]
fn short_input_is_unreadable() {
    assert!(matches!(load_stl_from_bytes(b"abc"), Err(StlError::Unreadable(_))));
}

#[test]
fn malformed_ascii_number_is_unreadable() {
    let bytes = b"solid foobar
        facet normal 1 2 3
            outer loop
                vertex 7 8 9,
                vertex 4 5 6
                vertex 7 8 9
            endloop
        endfacet
        endsolid foobar";
    assert!(matches!(load_stl_from_bytes(bytes), Err(StlError::Unreadable(_))));
}

#[test]
fn unreadable_carries_stl_io_error() {
    let mut bytes = vec![0u8; 80];
    bytes.extend_from_slice(&2u32.to_le_bytes());
    bytes.extend_from_slice(&[0u8; 60]);
    let direct = stl_io::read_stl(&mut std::io::Cursor::new(&bytes[..])).err().unwrap();
    match load_stl_from_bytes(&bytes) {
        Err(StlError::Unreadable(e)) => {
            assert_eq!(e.kind(), direct.kind());
            assert_eq!(e.to_string(), direct.to_string());
        }
        Ok(_) => panic!("expected an error"),
    }
}
