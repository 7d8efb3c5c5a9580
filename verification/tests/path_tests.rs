use nickel_cursor::path::{parse, serialize, PathCommand};

fn s(t: &str) -> String {
    t.to_string()
}

#[test]
fn parse_square_path() {
    let cmds = parse("M0,0 L256,0 L256,256 L0,256 Z").unwrap();
    assert_eq!(
        cmds,
        vec![
            PathCommand::Move(s("0"), s("0")),
            PathCommand::Line(s("256"), s("0")),
            PathCommand::Line(s("256"), s("256")),
            PathCommand::Line(s("0"), s("256")),
            PathCommand::Close,
        ]
    );
}

#[test]
fn parse_relative_commands_become_absolute() {
    let cmds = parse("m 10 10 l 5 0").unwrap();
    assert_eq!(
        cmds,
        vec![
            PathCommand::Move(s("10"), s("10")),
            PathCommand::Line(s("15"), s("10")),
        ]
    );
}

#[test]
fn parse_curves() {
    let cmds = parse("M0,0 Q10,10 20,0 C1,2 3,4 5,6").unwrap();
    assert_eq!(
        cmds,
        vec![
            PathCommand::Move(s("0"), s("0")),
            PathCommand::Quad(s("10"), s("10"), s("20"), s("0")),
            PathCommand::Cubic(s("1"), s("2"), s("3"), s("4"), s("5"), s("6")),
        ]
    );
}

#[test]
fn serialize_is_canonical() {
    let cmds = parse("M0,0 L256,0 Z").unwrap();
    assert_eq!(serialize(&cmds), "M 0 0 L 256 0 Z ");
}

#[test]
fn parse_serialize_round_trip() {
    let first = parse("M0,0 L256,0 L256,256 L0,256 Z M1.5,2.25 Q10,10 20,0 C1,2 3,4 5,6").unwrap();
    let canon = serialize(&first);
    let second = parse(&canon).unwrap();
    assert_eq!(first, second);
    assert_eq!(serialize(&second), canon);
}

#[test]
fn parse_empty_string() {
    let cmds = parse("").unwrap();
    assert!(cmds.is_empty());
    assert_eq!(serialize(&cmds), "");
}

#[test]
fn parse_unterminated_curve_fails() {
    assert!(parse("M 0 0 C 10 10").is_err());
}

#[test]
fn parse_unknown_letter_fails() {
    assert!(parse("M 0 0 W 4 4").is_err());
}
