//! Folding path commands into landscape collider vertices, both on plain
//! command lists and on commands parsed out of real path data.

use rusty_lander::landscape::{world_bounds_from_commands, PathCommand};

use svg::node::element::path::{Command, Data};

#[test]
fn move_then_curve_traces_vertices() {
    let cmds = vec![
        PathCommand::MoveTo(vec![10_000, 20_000]),
        PathCommand::CurveTo(vec![1_000, 2_000, 3_000, 4_000]),
    ];
    let vertices = world_bounds_from_commands(&cmds);
    assert_eq!(
        vertices,
        vec![(10_000, 20_000), (11_000, 18_000), (14_000, 14_000)]
    );
}

#[test]
fn curve_without_a_move_starts_at_the_origin() {
    let cmds = vec![PathCommand::CurveTo(vec![5_000, -1_000])];
    let vertices = world_bounds_from_commands(&cmds);
    assert_eq!(vertices, vec![(5_000, 1_000)]);
}

#[test]
fn other_commands_and_trailing_coordinates_are_ignored() {
    let cmds = vec![
        PathCommand::MoveTo(vec![1_000, 1_000, 777_000, 777_000]),
        PathCommand::Other,
        PathCommand::CurveTo(vec![2_000, 0, 9_000]),
        PathCommand::Other,
    ];
    let vertices = world_bounds_from_commands(&cmds);
    // The move uses only its first pair, the lone 9000 never pairs up.
    assert_eq!(vertices, vec![(1_000, 1_000), (3_000, 1_000)]);
}

#[test]
fn a_second_move_restarts_the_trace() {
    let cmds = vec![
        PathCommand::MoveTo(vec![1_000, 1_000]),
        PathCommand::CurveTo(vec![1_000, 1_000]),
        PathCommand::MoveTo(vec![-4_000, 0]),
        PathCommand::CurveTo(vec![1_000, 1_000]),
    ];
    let vertices = world_bounds_from_commands(&cmds);
    assert_eq!(
        vertices,
        vec![(1_000, 1_000), (2_000, 0), (-4_000, 0), (-3_000, -1_000)]
    );
}

#[test]
fn empty_command_stream_yields_no_vertices() {
    let cmds: Vec<PathCommand> = Vec::new();
    let vertices = world_bounds_from_commands(&cmds);
    assert!(vertices.is_empty());
}

/// The conversion the engine-facing shell performs: path data coordinates
/// become thousandths, any move restarts the trace, any cubic curve extends
/// it, everything else is ignored.
fn commands_from_data(data: &Data) -> Vec<PathCommand> {
    let mut cmds = Vec::new();
    for command in data.iter() {
        cmds.push(match command {
            Command::Move(_position, params) => PathCommand::MoveTo(
                params.iter().map(|p| (p * 1000.0).round() as i64).collect(),
            ),
            Command::CubicCurve(_position, params) => PathCommand::CurveTo(
                params.iter().map(|p| (p * 1000.0).round() as i64).collect(),
            ),
            _ => PathCommand::Other,
        });
    }
    cmds
}

#[test]
fn parsed_path_data_folds_into_vertices() {
    let data = Data::parse("M10,20 c1,2,3,4 l5,5 c-2,1,0,0").unwrap();
    let cmds = commands_from_data(&data);
    let vertices = world_bounds_from_commands(&cmds);
    assert_eq!(
        vertices,
        vec![
            (10_000, 20_000),
            (11_000, 18_000),
            (14_000, 14_000),
            (12_000, 13_000),
            (12_000, 13_000),
        ]
    );
}
