use swerve_sim_3d::vertex::{debug_lines_to_vertices, DebugLine, Vertex};

#[test]
fn two_vertices_per_line_without_alpha() {
    let lines = vec![
        DebugLine {
            point1: (1.0f32, 2.0, 3.0),
            point2: (4.0, 5.0, 6.0),
            color: (0.1, 0.2, 0.3, 0.4),
        },
        DebugLine {
            point1: (-1.0, -2.0, -3.0),
            point2: (7.0, 8.0, 9.0),
            color: (0.5, 0.6, 0.7, 0.8),
        },
    ];
    let vertices = debug_lines_to_vertices(&lines).unwrap();
    assert_eq!(
        vertices,
        vec![
            Vertex { position: [1.0, 2.0, 3.0], color: [0.1, 0.2, 0.3] },
            Vertex { position: [4.0, 5.0, 6.0], color: [0.1, 0.2, 0.3] },
            Vertex { position: [-1.0, -2.0, -3.0], color: [0.5, 0.6, 0.7] },
            Vertex { position: [7.0, 8.0, 9.0], color: [0.5, 0.6, 0.7] },
        ]
    );
}

#[test]
fn no_lines_keep_the_previous_vertices() {
    let lines: Vec<DebugLine<f32>> = Vec::new();
    assert_eq!(debug_lines_to_vertices(&lines), None);
}
