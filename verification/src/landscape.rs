//! Folding the landscape's vector-path commands into collider vertices.
//!
//! The landscape's outline arrives as a stream of path commands whose
//! coordinates are plain numbers in thousandths of a world unit. An absolute
//! move restarts the trace at its first coordinate pair; a cubic-curve
//! command extends it by one vertex per coordinate pair, offsetting rightward
//! and downward; every other command is ignored, and a trailing unpaired
//! number of a curve is dropped.

use vstd::prelude::*;

verus! {

/// Largest number of path commands the fold accepts.
pub const MAX_PATH_COMMANDS: usize = 10_000;

/// Largest number of coordinates one command may carry.
pub const MAX_COMMAND_PARAMS: usize = 10_000;

/// Largest coordinate magnitude one command may carry, in thousandths.
pub const MAX_PARAM: i64 = 1_000_000_000;

/// One path command, its coordinates in thousandths of a world unit.
#[derive(Clone, Debug, PartialEq, Eq)]
pub enum PathCommand {
    /// An absolute move; the trace restarts at the first coordinate pair.
    MoveTo(Vec<i64>),
    /// A relative cubic curve; each coordinate pair becomes one vertex,
    /// offset rightward by the first and downward by the second coordinate.
    CurveTo(Vec<i64>),
    /// Any command the trace ignores.
    Other,
}

/// The bounds under which the fold's arithmetic stays exact: few enough
/// commands, few enough coordinates per command, each coordinate small
/// enough, and every move with a complete first pair.
pub open spec fn bounded_command(c: PathCommand) -> bool {
    match c {
        PathCommand::MoveTo(ps) => {
            &&& 2 <= ps@.len() <= MAX_COMMAND_PARAMS
            &&& forall|k: int| 0 <= k < ps@.len() ==> -MAX_PARAM <= #[trigger] ps@[k] <= MAX_PARAM
        },
        PathCommand::CurveTo(ps) => {
            &&& ps@.len() <= MAX_COMMAND_PARAMS
            &&& forall|k: int| 0 <= k < ps@.len() ==> -MAX_PARAM <= #[trigger] ps@[k] <= MAX_PARAM
        },
        PathCommand::Other => true,
    }
}

/// The bounds under which the fold accepts a command stream.
pub open spec fn bounded_commands(cmds: Seq<PathCommand>) -> bool {
    &&& cmds.len() <= MAX_PATH_COMMANDS
    &&& forall|i: int| 0 <= i < cmds.len() ==> bounded_command(#[trigger] cmds[i])
}

/// Vertices a curve's coordinate pairs add to a trace at `cur`: each pair
/// moves the trace right by the first and down by the second coordinate.
pub open spec fn curve_vertices(cur: (int, int), params: Seq<i64>) -> Seq<(int, int)>
    decreases params.len(),
{
    if params.len() < 2 {
        seq![]
    } else {
        let next = (cur.0 + params[0], cur.1 - params[1]);
        seq![next] + curve_vertices(next, params.skip(2))
    }
}

/// Where a trace at `cur` ends after a curve's coordinate pairs.
pub open spec fn curve_end(cur: (int, int), params: Seq<i64>) -> (int, int)
    decreases params.len(),
{
    if params.len() < 2 {
        cur
    } else {
        curve_end((cur.0 + params[0], cur.1 - params[1]), params.skip(2))
    }
}

/// Vertices a command stream traces from the point `cur`: a move restarts
/// the trace at its first coordinate pair and records it, a curve records
/// one vertex per pair, anything else records nothing.
pub open spec fn path_vertices(cur: (int, int), cmds: Seq<PathCommand>) -> Seq<(int, int)>
    decreases cmds.len(),
{
    if cmds.len() == 0 {
        seq![]
    } else {
        match cmds[0] {
            PathCommand::MoveTo(ps) => {
                let p = (ps@[0] as int, ps@[1] as int);
                seq![p] + path_vertices(p, cmds.skip(1))
            },
            PathCommand::CurveTo(ps) => curve_vertices(cur, ps@) + path_vertices(
                curve_end(cur, ps@),
                cmds.skip(1),
            ),
            PathCommand::Other => path_vertices(cur, cmds.skip(1)),
        }
    }
}

/// A vertex list read at mathematical precision.
pub open spec fn vertices_as_ints(s: Seq<(i64, i64)>) -> Seq<(int, int)> {
    s.map_values(|v: (i64, i64)| (v.0 as int, v.1 as int))
}

/// Coordinate magnitude a trace can reach after `i` commands.
spec fn coord_limit(i: int) -> int {
    MAX_PARAM + i * (MAX_COMMAND_PARAMS * MAX_PARAM)
}

/// Folds a command stream into the landscape's collider vertices, starting
/// the trace at the origin.
pub fn world_bounds_from_commands(cmds: &Vec<PathCommand>) -> (r: Vec<(i64, i64)>)
    requires
        bounded_commands(cmds@),
    ensures
        vertices_as_ints(r@) == path_vertices((0int, 0int), cmds@),
{
    let mut out: Vec<(i64, i64)> = Vec::new();
    let mut cx: i64 = 0;
    let mut cy: i64 = 0;
    let mut i: usize = 0;
    proof {
        assert(cmds@.skip(0) =~= cmds@);
    }
    while i < cmds.len()
        invariant
            0 <= i <= cmds@.len(),
            bounded_commands(cmds@),
            -coord_limit(i as int) <= cx <= coord_limit(i as int),
            -coord_limit(i as int) <= cy <= coord_limit(i as int),
            path_vertices((0int, 0int), cmds@) == vertices_as_ints(out@) + path_vertices(
                (cx as int, cy as int),
                cmds@.skip(i as int),
            ),
        decreases cmds@.len() - i,
    {
        let ghost prev_limit = coord_limit(i as int);
        let ghost rest = cmds@.skip(i as int);
        proof {
            assert(rest[0] == cmds@[i as int]);
            assert(rest.skip(1) =~= cmds@.skip(i as int + 1));
            assert(bounded_command(cmds@[i as int]));
        }
        match &cmds[i] {
            PathCommand::MoveTo(ps) => {
                let px = ps[0];
                let py = ps[1];
                cx = px;
                cy = py;
                out.push((px, py));
                proof {
                    let p = (px as int, py as int);
                    assert(path_vertices((0int, 0int), cmds@) == vertices_as_ints(out@)
                        + path_vertices(p, cmds@.skip(i as int + 1))) by {
                        assert(path_vertices(p, rest.skip(1)) == path_vertices(
                            p,
                            cmds@.skip(i as int + 1),
                        ));
                        assert(vertices_as_ints(out@) =~= vertices_as_ints(out@.drop_last()).push(
                            p,
                        ));
                        assert(vertices_as_ints(out@.drop_last()).push(p) + path_vertices(
                            p,
                            cmds@.skip(i as int + 1),
                        ) =~= vertices_as_ints(out@.drop_last()) + (seq![p] + path_vertices(
                            p,
                            cmds@.skip(i as int + 1),
                        )));
                    }
                    assert(coord_limit(i as int + 1) >= MAX_PARAM) by (nonlinear_arith)
                        requires
                            i >= 0,
                    ;
                }
            },
            PathCommand::CurveTo(ps) => {
                let mut j: usize = 0;
                proof {
                    assert(ps@.skip(0) =~= ps@);
                    assert(curve_end((cx as int, cy as int), ps@.skip(0)) == curve_end(
                        (cx as int, cy as int),
                        ps@,
                    ));
                }
                while j + 2 <= ps.len()
                    invariant
                        0 <= j <= ps@.len(),
                        ps@.len() <= MAX_COMMAND_PARAMS,
                        forall|k: int| 0 <= k < ps@.len() ==> -MAX_PARAM <= #[trigger] ps@[k]
                            <= MAX_PARAM,
                        -(prev_limit + j * MAX_PARAM) <= cx <= prev_limit + j * MAX_PARAM,
                        -(prev_limit + j * MAX_PARAM) <= cy <= prev_limit + j * MAX_PARAM,
                        prev_limit == coord_limit(i as int),
                        0 <= i < cmds@.len() <= MAX_PATH_COMMANDS,
                        path_vertices((0int, 0int), cmds@) == vertices_as_ints(out@)
                            + curve_vertices((cx as int, cy as int), ps@.skip(j as int))
                            + path_vertices(
                            curve_end((cx as int, cy as int), ps@.skip(j as int)),
                            cmds@.skip(i as int + 1),
                        ),
                    decreases ps@.len() - j,
                {
                    proof {
                        assert(0 <= coord_limit(i as int) <= coord_limit(MAX_PATH_COMMANDS as int))
                            by (nonlinear_arith)
                            requires
                                0 <= i < MAX_PATH_COMMANDS,
                        ;
                        assert(j * MAX_PARAM <= MAX_COMMAND_PARAMS * MAX_PARAM) by (nonlinear_arith)
                            requires
                                0 <= j <= MAX_COMMAND_PARAMS,
                        ;
                        assert(ps@.skip(j as int)[0] == ps@[j as int]);
                        assert(ps@.skip(j as int)[1] == ps@[j as int + 1]);
                        assert(ps@.skip(j as int).skip(2) =~= ps@.skip(j as int + 2));
                    }
                    let nx = cx + ps[j];
                    let ny = cy - ps[j + 1];
                    out.push((nx, ny));
                    proof {
                        let cur = (cx as int, cy as int);
                        let next = (nx as int, ny as int);
                        let tail = path_vertices(
                            curve_end(cur, ps@.skip(j as int)),
                            cmds@.skip(i as int + 1),
                        );
                        assert(curve_vertices(cur, ps@.skip(j as int)) == seq![next]
                            + curve_vertices(next, ps@.skip(j as int + 2)));
                        assert(curve_end(cur, ps@.skip(j as int)) == curve_end(
                            next,
                            ps@.skip(j as int + 2),
                        ));
                        assert(vertices_as_ints(out@) =~= vertices_as_ints(
                            out@.drop_last(),
                        ).push(next));
                        assert(vertices_as_ints(out@.drop_last()).push(next) + curve_vertices(
                            next,
                            ps@.skip(j as int + 2),
                        ) =~= vertices_as_ints(out@.drop_last()) + (seq![next] + curve_vertices(
                            next,
                            ps@.skip(j as int + 2),
                        )));
                    }
                    cx = nx;
                    cy = ny;
                    j = j + 2;
                }
                proof {
                    assert(ps@.skip(j as int).len() < 2);
                    assert(curve_vertices((cx as int, cy as int), ps@.skip(j as int)) =~= seq![]);
                    assert(vertices_as_ints(out@) + seq![] + path_vertices(
                        (cx as int, cy as int),
                        cmds@.skip(i as int + 1),
                    ) =~= vertices_as_ints(out@) + path_vertices(
                        (cx as int, cy as int),
                        cmds@.skip(i as int + 1),
                    ));
                    assert(prev_limit + j * MAX_PARAM <= coord_limit(i as int + 1))
                        by (nonlinear_arith)
                        requires
                            prev_limit == coord_limit(i as int),
                            0 <= j <= MAX_COMMAND_PARAMS,
                    ;
                }
            },
            PathCommand::Other => {
                proof {
                    assert(path_vertices((cx as int, cy as int), rest) == path_vertices(
                        (cx as int, cy as int),
                        cmds@.skip(i as int + 1),
                    ));
                    assert(coord_limit(i as int) <= coord_limit(i as int + 1)) by (nonlinear_arith)
                        requires
                            i >= 0,
                    ;
                }
            },
        }
        i = i + 1;
    }
    proof {
        assert(cmds@.skip(i as int) =~= Seq::<PathCommand>::empty());
        assert(path_vertices((cx as int, cy as int), cmds@.skip(i as int)) =~= seq![]);
        assert(vertices_as_ints(out@) + seq![] =~= vertices_as_ints(out@));
    }
    out
}

} // verus!
