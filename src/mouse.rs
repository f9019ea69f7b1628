use vstd::prelude::*;

use crate::lexer::{same, views};
use crate::number::{i32_of, parse_i32};

verus! {

/// A mouse button.
#[derive(Debug, Clone, Copy, PartialEq, Eq, Structural)]
pub enum Mouse {
    Left,
    Right,
    Middle,
}

/// The direction of a scroll.
#[derive(Debug, Clone, Copy, PartialEq, Eq, Structural)]
pub enum Axis {
    Horizontal,
    Vertical,
}

/// Whether a pointer move goes to a screen position or by an offset.
#[derive(Debug, Clone, Copy, PartialEq, Eq, Structural)]
pub enum Coordinate {
    Abs,
    Rel,
}

/// A `mouse` line.
#[derive(Debug, Clone, Copy, PartialEq, Eq, Structural)]
pub enum MouseCommand {
    Press(Mouse),
    Release(Mouse),
    Click(Mouse),
    Double(Mouse),
    Triple(Mouse),
    Scroll { amount: i32, axis: Axis },
    Move { x: i32, y: i32, context: Coordinate },
}

/// The button a token names.
pub open spec fn button_of(t: Seq<char>) -> Option<Mouse> {
    if t == "left"@ {
        Some(Mouse::Left)
    } else if t == "right"@ {
        Some(Mouse::Right)
    } else if t == "middle"@ {
        Some(Mouse::Middle)
    } else {
        None
    }
}

/// The axis a token names.
pub open spec fn axis_of(t: Seq<char>) -> Option<Axis> {
    if t == "x"@ {
        Some(Axis::Horizontal)
    } else if t == "y"@ {
        Some(Axis::Vertical)
    } else {
        None
    }
}

/// The coordinate mode a token names.
pub open spec fn coordinate_of(t: Seq<char>) -> Option<Coordinate> {
    if t == "abs"@ {
        Some(Coordinate::Abs)
    } else if t == "rel"@ {
        Some(Coordinate::Rel)
    } else {
        None
    }
}

/// The command of a button action on the button that `t` names.
pub open spec fn button_command(action: Seq<char>, t: Seq<char>) -> Option<MouseCommand> {
    match button_of(t) {
        None => None,
        Some(b) => if action == "press"@ {
            Some(MouseCommand::Press(b))
        } else if action == "release"@ {
            Some(MouseCommand::Release(b))
        } else if action == "click"@ {
            Some(MouseCommand::Click(b))
        } else if action == "double"@ {
            Some(MouseCommand::Double(b))
        } else if action == "triple"@ {
            Some(MouseCommand::Triple(b))
        } else {
            None
        },
    }
}

/// True for the actions that take one button.
pub open spec fn is_button_action(action: Seq<char>) -> bool {
    action == "press"@ || action == "release"@ || action == "click"@ || action == "double"@
        || action == "triple"@
}

/// The meaning of the tokens of a `mouse` line (the verb included).
pub open spec fn mouse_spec(w: Seq<Seq<char>>) -> Option<MouseCommand> {
    if w.len() < 3 {
        None
    } else if is_button_action(w[1]) {
        button_command(w[1], w[2])
    } else if w[1] == "scroll"@ {
        if w.len() < 4 {
            None
        } else {
            match (i32_of(w[2]), axis_of(w[3])) {
                (Some(amount), Some(axis)) => Some(MouseCommand::Scroll { amount, axis }),
                _ => None,
            }
        }
    } else if w[1] == "move"@ {
        if w.len() < 5 {
            None
        } else {
            match (i32_of(w[2]), i32_of(w[3]), coordinate_of(w[4])) {
                (Some(x), Some(y), Some(context)) => Some(MouseCommand::Move { x, y, context }),
                _ => None,
            }
        }
    } else {
        None
    }
}

/// `move <x> <y> <mode>` moves by or to (x, y) as the mode says; a mode other than `abs`
/// and `rel` makes the line fail.
pub proof fn lemma_move_mode(w: Seq<Seq<char>>, x: i32, y: i32)
    requires
        w.len() >= 5,
        w[1] == "move"@,
        i32_of(w[2]) == Some(x),
        i32_of(w[3]) == Some(y),
    ensures
        w[4] == "rel"@ ==> mouse_spec(w) == Some(MouseCommand::Move { x, y, context: Coordinate::Rel }),
        w[4] == "abs"@ ==> mouse_spec(w) == Some(MouseCommand::Move { x, y, context: Coordinate::Abs }),
        w[4] != "rel"@ && w[4] != "abs"@ ==> mouse_spec(w).is_none(),
{
    reveal_strlit("move");
    reveal_strlit("press");
    reveal_strlit("release");
    reveal_strlit("click");
    reveal_strlit("double");
    reveal_strlit("triple");
    reveal_strlit("scroll");
    reveal_strlit("abs");
    reveal_strlit("rel");
    assert("move"@.len() == 4 && "press"@.len() == 5 && "click"@.len() == 5);
    assert("release"@.len() == 7 && "double"@.len() == 6 && "triple"@.len() == 6);
    assert("abs"@[0] != "rel"@[0]);
    assert(!is_button_action(w[1]));
}

/// `scroll <n> x` scrolls `n` horizontally and `scroll <n> y` vertically.
pub proof fn lemma_scroll_axis(w: Seq<Seq<char>>, amount: i32)
    requires
        w.len() >= 4,
        w[1] == "scroll"@,
        i32_of(w[2]) == Some(amount),
    ensures
        w[3] == "x"@ ==> mouse_spec(w) == Some(MouseCommand::Scroll { amount, axis: Axis::Horizontal }),
        w[3] == "y"@ ==> mouse_spec(w) == Some(MouseCommand::Scroll { amount, axis: Axis::Vertical }),
        w[3] != "x"@ && w[3] != "y"@ ==> mouse_spec(w).is_none(),
{
    reveal_strlit("scroll");
    reveal_strlit("press");
    reveal_strlit("release");
    reveal_strlit("click");
    reveal_strlit("double");
    reveal_strlit("triple");
    reveal_strlit("x");
    reveal_strlit("y");
    assert("scroll"@.len() == 6 && "press"@.len() == 5 && "click"@.len() == 5);
    assert("release"@.len() == 7 && "double"@[0] != "scroll"@[0] && "triple"@[0] != "scroll"@[0]);
    assert("x"@[0] != "y"@[0]);
    assert(!is_button_action(w[1]));
}

/// The token that names a button.
pub open spec fn button_name(b: Mouse) -> Seq<char> {
    match b {
        Mouse::Left => "left"@,
        Mouse::Right => "right"@,
        Mouse::Middle => "middle"@,
    }
}

impl Mouse {
    /// The token that names this button.
    pub fn name(&self) -> (r: &'static str)
        ensures
            r@ == button_name(*self),
    {
        match self {
            Mouse::Left => "left",
            Mouse::Right => "right",
            Mouse::Middle => "middle",
        }
    }
}

/// A button's name reads back as that button.
pub proof fn lemma_button_name_round_trip(b: Mouse)
    ensures
        button_of(button_name(b)) == Some(b),
{
    reveal_strlit("left");
    reveal_strlit("right");
    reveal_strlit("middle");
    assert("left"@.len() == 4 && "right"@.len() == 5 && "middle"@.len() == 6);
}

/// Reads a button token.
pub fn parse_mouse_button(btn: &str) -> (r: Option<Mouse>)
    ensures
        r == button_of(btn@),
{
    if same(btn, "left") {
        Some(Mouse::Left)
    } else if same(btn, "right") {
        Some(Mouse::Right)
    } else if same(btn, "middle") {
        Some(Mouse::Middle)
    } else {
        None
    }
}

fn parse_axis(t: &str) -> (r: Option<Axis>)
    ensures
        r == axis_of(t@),
{
    if same(t, "x") {
        Some(Axis::Horizontal)
    } else if same(t, "y") {
        Some(Axis::Vertical)
    } else {
        None
    }
}

fn parse_coordinate(t: &str) -> (r: Option<Coordinate>)
    ensures
        r == coordinate_of(t@),
{
    if same(t, "abs") {
        Some(Coordinate::Abs)
    } else if same(t, "rel") {
        Some(Coordinate::Rel)
    } else {
        None
    }
}

impl MouseCommand {
    /// Parses the tokens of a `mouse` line; the first token is the verb and is not read.
    pub fn parse(words: &Vec<&str>) -> (r: Option<MouseCommand>)
        ensures
            r == mouse_spec(views(words@)),
    {
        if words.len() < 3 {
            return None;
        }
        let sub = words[1];
        let press = same(sub, "press");
        let release = same(sub, "release");
        let click = same(sub, "click");
        let double = same(sub, "double");
        let triple = same(sub, "triple");
        if press || release || click || double || triple {
            match parse_mouse_button(words[2]) {
                None => None,
                Some(b) => if press {
                    Some(MouseCommand::Press(b))
                } else if release {
                    Some(MouseCommand::Release(b))
                } else if click {
                    Some(MouseCommand::Click(b))
                } else if double {
                    Some(MouseCommand::Double(b))
                } else {
                    Some(MouseCommand::Triple(b))
                },
            }
        } else if same(sub, "scroll") {
            if words.len() < 4 {
                return None;
            }
            match (parse_i32(words[2]), parse_axis(words[3])) {
                (Some(amount), Some(axis)) => Some(MouseCommand::Scroll { amount, axis }),
                _ => None,
            }
        } else if same(sub, "move") {
            if words.len() < 5 {
                return None;
            }
            match (parse_i32(words[2]), parse_i32(words[3]), parse_coordinate(words[4])) {
                (Some(x), Some(y), Some(context)) => Some(MouseCommand::Move { x, y, context }),
                _ => None,
            }
        } else {
            None
        }
    }
}

} // verus!
