use scripter::mouse::{parse_mouse_button, Axis, Coordinate, Mouse, MouseCommand};

#[test]
fn mouse_test_parse() {
    let right = Mouse::Right;
    let left = Mouse::Left;

    let words = vec!["click", "press", "right"];
    let cmd = MouseCommand::parse(&words);
    assert_eq!(cmd, Some(MouseCommand::Press(right)));

    let words = vec!["click", "release", "right"];
    let cmd = MouseCommand::parse(&words);
    assert_eq!(cmd, Some(MouseCommand::Release(right)));

    let words = vec!["click", "double", "left"];
    let cmd = MouseCommand::parse(&words);
    assert_eq!(cmd, Some(MouseCommand::Double(left)));

    let words = vec!["click", "triple", "right"];
    let cmd = MouseCommand::parse(&words);
    assert_eq!(cmd, Some(MouseCommand::Triple(right)));

    let words = vec!["click", "scroll", "10", "x"];
    let cmd = MouseCommand::parse(&words);
    assert_eq!(
        cmd,
        Some(MouseCommand::Scroll {
            axis: Axis::Horizontal,
            amount: 10
        })
    );

    let words = vec!["click", "scroll", "-5", "y"];
    let cmd = MouseCommand::parse(&words);
    assert_eq!(
        cmd,
        Some(MouseCommand::Scroll {
            axis: Axis::Vertical,
            amount: -5
        })
    );

    let words = vec!["click", "move", "10", "6", "rel"];
    let cmd = MouseCommand::parse(&words);
    assert_eq!(
        cmd,
        Some(MouseCommand::Move {
            x: 10,
            y: 6,
            context: Coordinate::Rel
        })
    )
}

#[test]
fn mouse_buttons() {
    assert_eq!(parse_mouse_button("left"), Some(Mouse::Left));
    assert_eq!(parse_mouse_button("right"), Some(Mouse::Right));
    assert_eq!(parse_mouse_button("middle"), Some(Mouse::Middle));
    assert_eq!(parse_mouse_button("l"), None);
    assert_eq!(
        MouseCommand::parse(&vec!["mouse", "click", "middle"]),
        Some(MouseCommand::Click(Mouse::Middle))
    );
    for b in [Mouse::Left, Mouse::Right, Mouse::Middle] {
        assert_eq!(parse_mouse_button(b.name()), Some(b));
    }
}

#[test]
fn mouse_move_modes() {
    assert_eq!(
        MouseCommand::parse(&vec!["mouse", "move", "-3", "2147483647", "abs"]),
        Some(MouseCommand::Move {
            x: -3,
            y: 2147483647,
            context: Coordinate::Abs
        })
    );
    assert_eq!(MouseCommand::parse(&vec!["mouse", "move", "10", "6", "relative"]), None);
    assert_eq!(MouseCommand::parse(&vec!["mouse", "move", "10", "6"]), None);
    assert_eq!(MouseCommand::parse(&vec!["mouse", "move", "10", "x", "rel"]), None);
    assert_eq!(MouseCommand::parse(&vec!["mouse", "move", "2147483648", "0", "rel"]), None);
    assert_eq!(
        MouseCommand::parse(&vec!["mouse", "move", "-2147483648", "0", "rel"]),
        Some(MouseCommand::Move {
            x: -2147483648,
            y: 0,
            context: Coordinate::Rel
        })
    );
}

#[test]
fn mouse_errors() {
    assert_eq!(MouseCommand::parse(&vec!["mouse", "press", "top"]), None);
    assert_eq!(MouseCommand::parse(&vec!["mouse", "press"]), None);
    assert_eq!(MouseCommand::parse(&vec!["mouse", "scroll", "5"]), None);
    assert_eq!(MouseCommand::parse(&vec!["mouse", "scroll", "5", "z"]), None);
    assert_eq!(MouseCommand::parse(&vec!["mouse", "scroll", "five", "x"]), None);
    assert_eq!(MouseCommand::parse(&vec!["mouse", "drag", "left"]), None);
}
