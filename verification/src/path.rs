//! The vector-path mini-language.
//!
//! A cursor outline is written in an SVG-style path string. Parsing simplifies
//! it to five command kinds — move, line, quadratic curve, cubic curve, close —
//! with every coordinate kept as decimal text. A command sequence can be
//! re-serialized to a canonical path string that parses back to the same
//! sequence.

use vstd::prelude::*;

use crate::text::{append_char, append_str};
use svgtypes::SimplePathSegment as Seg;

verus! {

/// One simplified, absolute drawing command; coordinates are decimal text.
#[derive(Clone, PartialEq, Eq, Debug)]
pub enum PathCommand {
    Move(String, String),
    Line(String, String),
    Quad(String, String, String, String),
    Cubic(String, String, String, String, String, String),
    Close,
}

/// The mathematical form of one drawing command.
pub enum SpecPathCommand {
    Move(Seq<char>, Seq<char>),
    Line(Seq<char>, Seq<char>),
    Quad(Seq<char>, Seq<char>, Seq<char>, Seq<char>),
    Cubic(Seq<char>, Seq<char>, Seq<char>, Seq<char>, Seq<char>, Seq<char>),
    Close,
}

impl View for PathCommand {
    type V = SpecPathCommand;

    open spec fn view(&self) -> SpecPathCommand {
        match self {
            PathCommand::Move(x, y) => SpecPathCommand::Move(x@, y@),
            PathCommand::Line(x, y) => SpecPathCommand::Line(x@, y@),
            PathCommand::Quad(x1, y1, x, y) => SpecPathCommand::Quad(x1@, y1@, x@, y@),
            PathCommand::Cubic(x1, y1, x2, y2, x, y) => SpecPathCommand::Cubic(
                x1@,
                y1@,
                x2@,
                y2@,
                x@,
                y@,
            ),
            PathCommand::Close => SpecPathCommand::Close,
        }
    }
}

/// The views of a sequence of drawing commands.
pub open spec fn cmds_view(s: Seq<PathCommand>) -> Seq<SpecPathCommand> {
    s.map_values(|c: PathCommand| c@)
}

/// A malformed path string, with the parser's message.
#[derive(Clone, Debug)]
pub struct PathSyntaxError {
    pub message: String,
}

/// What parsing a path string yields: the simplified command sequence, or
/// nothing when the string is malformed. The result depends on the string
/// alone.
pub uninterp spec fn path_parse(s: Seq<char>) -> Option<Seq<SpecPathCommand>>;

#[verifier::external_type_specification]
#[verifier::external_body]
pub struct ExSimplePathSegment(svgtypes::SimplePathSegment);

/// Relies on the shape of svgtypes::SimplePathSegment: each simplified
/// segment becomes the drawing command of the same kind, one match arm per
/// variant, every coordinate turned to its decimal text.
#[verifier::external_body]
fn cmd_of_seg(seg: svgtypes::SimplePathSegment) -> (r: PathCommand) {
    match seg {
        Seg::MoveTo { x, y } => PathCommand::Move(x.to_string(), y.to_string()),
        Seg::LineTo { x, y } => PathCommand::Line(x.to_string(), y.to_string()),
        Seg::Quadratic { x1, y1, x, y } => PathCommand::Quad(x1.to_string(), y1.to_string(), x.to_string(), y.to_string()),
        Seg::CurveTo { x1, y1, x2, y2, x, y } => PathCommand::Cubic(x1.to_string(), y1.to_string(), x2.to_string(), y2.to_string(), x.to_string(), y.to_string()),
        Seg::ClosePath => PathCommand::Close,
    }
}

/// Relies on svgtypes::SimplifyingPathParser: it tokenizes an SVG path string
/// into absolute move/line/quadratic/cubic segments plus close-path, expanding
/// arcs and shorthands, and reports malformed syntax as an error.
#[verifier::external_body]
pub fn parse(data: &str) -> (r: Result<Vec<PathCommand>, PathSyntaxError>)
    ensures
        match r {
            Ok(cmds) => path_parse(data@) == Some(cmds_view(cmds@)),
            Err(_) => path_parse(data@) is None,
        },
{
    let mut v = Vec::new();
    for seg in svgtypes::SimplifyingPathParser::from(data) {
        match seg {
            Ok(s) => v.push(cmd_of_seg(s)),
            Err(e) => return Err(PathSyntaxError { message: e.to_string() }),
        }
    }
    Ok(v)
}

/// The canonical text of one command: its letter, then its coordinates, each
/// followed by one space.
pub open spec fn cmd_text(c: SpecPathCommand) -> Seq<char> {
    match c {
        SpecPathCommand::Move(x, y) => seq!['M', ' '] + x + seq![' '] + y + seq![' '],
        SpecPathCommand::Line(x, y) => seq!['L', ' '] + x + seq![' '] + y + seq![' '],
        SpecPathCommand::Quad(x1, y1, x, y) => seq!['Q', ' '] + x1 + seq![' '] + y1 + seq![' '] + x
            + seq![' '] + y + seq![' '],
        SpecPathCommand::Cubic(x1, y1, x2, y2, x, y) => seq!['C', ' '] + x1 + seq![' '] + y1
            + seq![' '] + x2 + seq![' '] + y2 + seq![' '] + x + seq![' '] + y + seq![' '],
        SpecPathCommand::Close => seq!['Z', ' '],
    }
}

/// The canonical text of the first `i` commands, concatenated.
pub open spec fn ser_prefix(s: Seq<SpecPathCommand>, i: int) -> Seq<char>
    decreases i,
{
    if i <= 0 {
        Seq::empty()
    } else {
        ser_prefix(s, i - 1) + cmd_text(s[i - 1])
    }
}

/// The canonical path string of a command sequence.
pub open spec fn spec_serialize(s: Seq<SpecPathCommand>) -> Seq<char> {
    ser_prefix(s, s.len() as int)
}

/// Writes the canonical path string of a command sequence: each command as its
/// letter and coordinates, single-space separated.
pub fn serialize(cmds: &Vec<PathCommand>) -> (r: String)
    ensures
        r@ == spec_serialize(cmds_view(cmds@)),
{
    let mut out = String::new();
    let mut i: usize = 0;
    while i < cmds.len()
        invariant
            0 <= i <= cmds@.len(),
            out@ == ser_prefix(cmds_view(cmds@), i as int),
        decreases cmds@.len() - i,
    {
        match &cmds[i] {
            PathCommand::Move(x, y) => {
                append_char(&mut out, 'M');
                append_char(&mut out, ' ');
                append_str(&mut out, x.as_str());
                append_char(&mut out, ' ');
                append_str(&mut out, y.as_str());
                append_char(&mut out, ' ');
            },
            PathCommand::Line(x, y) => {
                append_char(&mut out, 'L');
                append_char(&mut out, ' ');
                append_str(&mut out, x.as_str());
                append_char(&mut out, ' ');
                append_str(&mut out, y.as_str());
                append_char(&mut out, ' ');
            },
            PathCommand::Quad(x1, y1, x, y) => {
                append_char(&mut out, 'Q');
                append_char(&mut out, ' ');
                append_str(&mut out, x1.as_str());
                append_char(&mut out, ' ');
                append_str(&mut out, y1.as_str());
                append_char(&mut out, ' ');
                append_str(&mut out, x.as_str());
                append_char(&mut out, ' ');
                append_str(&mut out, y.as_str());
                append_char(&mut out, ' ');
            },
            PathCommand::Cubic(x1, y1, x2, y2, x, y) => {
                append_char(&mut out, 'C');
                append_char(&mut out, ' ');
                append_str(&mut out, x1.as_str());
                append_char(&mut out, ' ');
                append_str(&mut out, y1.as_str());
                append_char(&mut out, ' ');
                append_str(&mut out, x2.as_str());
                append_char(&mut out, ' ');
                append_str(&mut out, y2.as_str());
                append_char(&mut out, ' ');
                append_str(&mut out, x.as_str());
                append_char(&mut out, ' ');
                append_str(&mut out, y.as_str());
                append_char(&mut out, ' ');
            },
            PathCommand::Close => {
                append_char(&mut out, 'Z');
                append_char(&mut out, ' ');
            },
        }
        proof {
            assert(cmds_view(cmds@)[i as int] == cmds@[i as int]@);
            assert(out@ =~= ser_prefix(cmds_view(cmds@), i as int + 1));
        }
        i = i + 1;
    }
    assert(out@ =~= spec_serialize(cmds_view(cmds@)));
    out
}

} // verus!
