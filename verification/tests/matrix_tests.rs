use game_renderer::math::matrix::Matrix4x4;

#[test]
fn from_rows_keeps_rows() {
    let rows = [[1, 2, 3, 4], [5, 6, 7, 8], [9, 10, 11, 12], [13, 14, 15, 16]];
    assert_eq!(Matrix4x4::from_rows(rows).rows, rows);
}

#[test]
fn wgsl_matrix_is_column_major() {
    let m = Matrix4x4::from_rows([[1, 2, 3, 4], [5, 6, 7, 8], [9, 10, 11, 12], [13, 14, 15, 16]]);
    assert_eq!(
        m.to_wgsl_matrix(),
        [[1, 5, 9, 13], [2, 6, 10, 14], [3, 7, 11, 15], [4, 8, 12, 16]]
    );
}

#[test]
fn wgsl_matrix_of_float_offset_lands_in_last_column() {
    let m = Matrix4x4::from_rows([
        [1.0f32, 0.0, 0.0, 2.5],
        [0.0, 1.0, 0.0, -1.0],
        [0.0, 0.0, 1.0, 4.0],
        [0.0, 0.0, 0.0, 1.0],
    ]);
    let cols = m.to_wgsl_matrix();
    assert_eq!(cols[3], [2.5, -1.0, 4.0, 1.0]);
}

#[test]
fn wgsl_conversion_twice_restores_rows() {
    let rows = [[3, 1, 4, 1], [5, 9, 2, 6], [5, 3, 5, 8], [9, 7, 9, 3]];
    let once = Matrix4x4::from_rows(rows).to_wgsl_matrix();
    let twice = Matrix4x4::from_rows(once).to_wgsl_matrix();
    assert_eq!(twice, rows);
}
