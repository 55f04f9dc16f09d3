use game_renderer::renderer::mesh::{MeshData, MeshId};
use game_renderer::renderer::pipeline::{initialize_mesh_types, MeshTable};
use game_renderer::scene::object::CubeObject;

#[test]
fn cube_object_parts_carry_latest_transform_and_material() {
    let mut cube = CubeObject::new("origin", 0xFFFFFFFFu32);
    cube.with_transform("lifted");
    cube.with_material(0xFFF22FFF);
    assert_eq!(cube.into_object_parts(), (MeshId::Cube, "lifted", 0xFFF22FFF));
}

#[test]
fn cube_object_defaults_pass_through() {
    let cube = CubeObject::new(7u8, 'w');
    assert_eq!(cube.into_object_parts(), (MeshId::Cube, 7u8, 'w'));
}

#[test]
fn mesh_table_get_after_insert() {
    let mut table: MeshTable<&str> = MeshTable::new();
    assert!(table.get(&MeshId::Cube).is_none());
    assert_eq!(table.insert(MeshId::Cube, "cube mesh"), None);
    assert_eq!(table.get(&MeshId::Cube), Some(&"cube mesh"));
    assert!(table.get(&MeshId::Plane).is_none());
    assert_eq!(table.insert(MeshId::Cube, "new cube"), Some("cube mesh"));
    assert_eq!(table.get(&MeshId::Cube), Some(&"new cube"));
}

#[test]
fn initialized_table_has_every_shape() {
    let table = initialize_mesh_types(|data: MeshData| (data.label, data.indices.len(), data.vertices.len()));
    assert_eq!(table.get(&MeshId::Cube), Some(&("Cube", 36, 24)));
    assert_eq!(table.get(&MeshId::Plane), Some(&("Plane", 6, 4)));
}
