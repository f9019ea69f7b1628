use scripter::command::{parse_line, Commands};
use scripter::exec::{Action, Direction, Step};
use scripter::kbd::{KbdCommand, Key};
use scripter::mouse::{Axis, Coordinate, Mouse, MouseCommand};
use scripter::wait::{Time, WaitCommand};

fn click(b: Mouse) -> Action<String> {
    Action::Button(b, Direction::Click)
}

#[test]
fn double_click_is_two_clicks_in_order() {
    let cmd = parse_line("mouse double left").unwrap();
    assert_eq!(cmd.actions(), vec![click(Mouse::Left), click(Mouse::Left)]);
    assert_eq!(cmd.execute(&vec![]), Step::Perform(click(Mouse::Left)));
    assert_eq!(cmd.execute(&vec![true]), Step::Perform(click(Mouse::Left)));
    assert_eq!(cmd.execute(&vec![true, true]), Step::Done);
}

#[test]
fn double_click_stops_at_first_failure() {
    let cmd = Commands::MOUSE(MouseCommand::Double(Mouse::Left));
    assert_eq!(cmd.execute(&vec![false]), Step::Failed(click(Mouse::Left)));
    assert_eq!(cmd.execute(&vec![true, false]), Step::Failed(click(Mouse::Left)));
}

#[test]
fn triple_click_is_three_clicks() {
    let cmd = Commands::MOUSE(MouseCommand::Triple(Mouse::Right));
    assert_eq!(cmd.actions(), vec![click(Mouse::Right); 3]);
    assert_eq!(cmd.execute(&vec![true, true]), Step::Perform(click(Mouse::Right)));
    assert_eq!(cmd.execute(&vec![true, false]), Step::Failed(click(Mouse::Right)));
    assert_eq!(cmd.execute(&vec![true, true, true]), Step::Done);
}

#[test]
fn single_actions() {
    let cases = vec![
        (
            Commands::WAIT(WaitCommand::Time(Time::Seconds(2))),
            Action::Wait(Time::Seconds(2)),
        ),
        (
            Commands::KBD(KbdCommand::Press(Key::Tab)),
            Action::Key(Key::Tab, Direction::Press),
        ),
        (
            Commands::KBD(KbdCommand::Release(Key::Unicode('x'))),
            Action::Key(Key::Unicode('x'), Direction::Release),
        ),
        (
            Commands::KBD(KbdCommand::Click(Key::Escape)),
            Action::Key(Key::Escape, Direction::Click),
        ),
        (
            Commands::KBD(KbdCommand::Type("abc".to_string())),
            Action::Text("abc".to_string()),
        ),
        (
            Commands::MOUSE(MouseCommand::Press(Mouse::Middle)),
            Action::Button(Mouse::Middle, Direction::Press),
        ),
        (
            Commands::MOUSE(MouseCommand::Release(Mouse::Left)),
            Action::Button(Mouse::Left, Direction::Release),
        ),
        (
            Commands::MOUSE(MouseCommand::Scroll {
                amount: -5,
                axis: Axis::Vertical,
            }),
            Action::Scroll(-5, Axis::Vertical),
        ),
        (
            Commands::MOUSE(MouseCommand::Move {
                x: 10,
                y: 6,
                context: Coordinate::Rel,
            }),
            Action::Move(10, 6, Coordinate::Rel),
        ),
    ];
    for (cmd, action) in cases {
        assert_eq!(cmd.actions(), vec![action.clone()]);
        assert_eq!(cmd.execute(&vec![]), Step::Perform(action.clone()));
        assert_eq!(cmd.execute(&vec![true]), Step::Done);
        assert_eq!(cmd.execute(&vec![false]), Step::Failed(action));
    }
}
