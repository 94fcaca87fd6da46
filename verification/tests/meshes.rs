use sdf_csg::{Error, Mesh};

#[test]
fn mesh_lists_the_corners_of_its_triangles() {
    let vertices: [f32; 12] = [0., 0., 0., 1., 0., 0., 0., 1., 0., 0., 0., 1.];
    let normals: [f32; 12] = [0., 0., 1., 0., 1., 0., 1., 0., 0., -1., 0., 0.];
    let indices: [u32; 6] = [0, 1, 2, 2, 1, 3];
    let mesh = Mesh::new(&vertices, &normals, &indices).unwrap();
    assert_eq!(
        mesh.vertices(),
        &vec![0., 0., 0., 1., 0., 0., 0., 1., 0., 0., 1., 0., 1., 0., 0., 0., 0., 1.]
    );
    assert_eq!(
        mesh.normals(),
        &vec![0., 0., 1., 0., 1., 0., 1., 0., 0., 1., 0., 0., 0., 1., 0., -1., 0., 0.]
    );
}

#[test]
fn mesh_without_triangles() {
    let none: [u8; 0] = [];
    let mesh = Mesh::new(&none, &none, &[]).unwrap();
    assert!(mesh.vertices().is_empty());
    assert!(mesh.normals().is_empty());
}

#[test]
fn mesh_indices_come_in_threes() {
    let data = [1u8, 2, 3];
    assert_eq!(Mesh::new(&data, &data, &[0]).err(), Some(Error::IndexCount { count: 1 }));
    assert_eq!(Mesh::new(&data, &data, &[0, 0]).err(), Some(Error::IndexCount { count: 2 }));
    assert_eq!(
        Mesh::new(&data, &data, &[0, 0, 0, 9]).err(),
        Some(Error::IndexCount { count: 4 })
    );
    assert!(Mesh::new(&data, &data, &[0, 0, 0]).is_ok());
}

#[test]
fn mesh_reports_the_first_index_without_a_vertex() {
    let two = [1u8, 2, 3, 4, 5, 6];
    let one = [1u8, 2, 3];
    assert_eq!(
        Mesh::new(&two, &two, &[0, 1, 2]).err(),
        Some(Error::IndexOutOfRange { position: 2 })
    );
    assert_eq!(
        Mesh::new(&two, &one, &[0, 1, 0]).err(),
        Some(Error::IndexOutOfRange { position: 1 })
    );
    assert_eq!(
        Mesh::new(&one, &two, &[1, 7, 0]).err(),
        Some(Error::IndexOutOfRange { position: 0 })
    );
    assert_eq!(
        Mesh::new(&two, &two, &[0, 1, 0, 1, u32::MAX, 5]).err(),
        Some(Error::IndexOutOfRange { position: 4 })
    );
    let ragged = [1u8, 2, 3, 4, 5];
    assert_eq!(
        Mesh::new(&ragged, &ragged, &[0, 0, 1]).err(),
        Some(Error::IndexOutOfRange { position: 2 })
    );
}
