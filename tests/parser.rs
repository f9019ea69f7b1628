use scripter::command::{parse_buffer, parse_line, parse_tokens, Commands, ParseError};
use scripter::kbd::{KbdCommand, Key};
use scripter::lexer::split_tokens;
use scripter::mouse::{Axis, Coordinate, Mouse, MouseCommand};
use scripter::wait::{Time, WaitCommand};

#[test]
fn test_parse_line() {
    let line = "wait time 1 seconds".to_string();
    let cmd = parse_line(&line);
    assert_eq!(cmd, Ok(Commands::WAIT(WaitCommand::Time(Time::Seconds(1)))));
}

#[test]
fn test_parse_buffer() {
    let buffer = "wait time 1\nkbd p a\nkbd r a\nkbd t abc".to_string();
    // `p` is not a keyboard action, so the second line stops the parse
    let r = parse_buffer(&buffer);
    assert_eq!(
        r,
        Err(ParseError {
            line: "kbd p a".to_string()
        })
    );
}

#[test]
fn tokens_split_on_whitespace_runs() {
    assert_eq!(split_tokens("  a \t bc\u{3000}d  "), vec!["a", "bc", "d"]);
    assert_eq!(split_tokens(""), Vec::<&str>::new());
    assert_eq!(split_tokens(" \t "), Vec::<&str>::new());
    assert_eq!(split_tokens("one"), vec!["one"]);
}

#[test]
fn type_text_is_rejoined_and_lowercased() {
    assert_eq!(
        parse_line("kbd type hello world"),
        Ok(Commands::KBD(KbdCommand::Type("hello world".to_string())))
    );
    assert_eq!(
        parse_line("KBD  Type   Hello \t World"),
        Ok(Commands::KBD(KbdCommand::Type("hello world".to_string())))
    );
}

#[test]
fn scroll_lines() {
    assert_eq!(
        parse_line("mouse scroll -5 y"),
        Ok(Commands::MOUSE(MouseCommand::Scroll {
            amount: -5,
            axis: Axis::Vertical
        }))
    );
    assert_eq!(
        parse_line("mouse scroll 10 x"),
        Ok(Commands::MOUSE(MouseCommand::Scroll {
            amount: 10,
            axis: Axis::Horizontal
        }))
    );
}

#[test]
fn move_lines() {
    assert_eq!(
        parse_line("mouse move 10 6 rel"),
        Ok(Commands::MOUSE(MouseCommand::Move {
            x: 10,
            y: 6,
            context: Coordinate::Rel
        }))
    );
    assert_eq!(
        parse_line("mouse move 10 6 sideways"),
        Err(ParseError {
            line: "mouse move 10 6 sideways".to_string()
        })
    );
}

#[test]
fn grammar_ignores_case() {
    assert_eq!(
        parse_line("WAIT TIME 3 MINUTES"),
        Ok(Commands::WAIT(WaitCommand::Time(Time::Minutes(3))))
    );
    assert_eq!(
        parse_line("Kbd Press SPACE"),
        Ok(Commands::KBD(KbdCommand::Press(Key::Space)))
    );
    assert_eq!(
        parse_line("kbd press Q"),
        Ok(Commands::KBD(KbdCommand::Press(Key::Unicode('q'))))
    );
    assert_eq!(
        parse_line("Mouse Double LEFT"),
        Ok(Commands::MOUSE(MouseCommand::Double(Mouse::Left)))
    );
}

#[test]
fn blank_lines_and_unknown_verbs_fail() {
    for line in ["", "   ", "\t", "jump 3", "click press left", "waitt time 1"] {
        assert_eq!(
            parse_line(line),
            Err(ParseError {
                line: line.to_string()
            })
        );
    }
    assert_eq!(parse_tokens(&vec![]), None);
    assert_eq!(parse_tokens(&vec!["sleep", "5"]), None);
}

#[test]
fn error_keeps_the_line_as_written() {
    assert_eq!(
        parse_line("Kbd Dance NOW"),
        Err(ParseError {
            line: "Kbd Dance NOW".to_string()
        })
    );
}

#[test]
fn buffer_keeps_line_order() {
    let script = "wait time\nkbd press a\nmouse click right\nkbd type Hi There\r\nwait time 2 hours\n";
    let expected = vec![
        Commands::WAIT(WaitCommand::Time(Time::MilliSeconds(0))),
        Commands::KBD(KbdCommand::Press(Key::Unicode('a'))),
        Commands::MOUSE(MouseCommand::Click(Mouse::Right)),
        Commands::KBD(KbdCommand::Type("hi there".to_string())),
        Commands::WAIT(WaitCommand::Time(Time::Hours(2))),
    ];
    let first = parse_buffer(script);
    let second = parse_buffer(script);
    assert_eq!(first, Ok(expected));
    assert_eq!(first, second);
}

#[test]
fn buffer_edges() {
    assert_eq!(parse_buffer(""), Ok(vec![]));
    assert_eq!(
        parse_buffer("wait time 1"),
        Ok(vec![Commands::WAIT(WaitCommand::Time(Time::Seconds(1)))])
    );
    assert_eq!(
        parse_buffer("wait time 1\n\nwait time 2"),
        Err(ParseError {
            line: "".to_string()
        })
    );
    assert_eq!(
        parse_buffer("\n"),
        Err(ParseError {
            line: "".to_string()
        })
    );
    assert_eq!(
        parse_buffer("wait time 1\nfly away\nbad too"),
        Err(ParseError {
            line: "fly away".to_string()
        })
    );
}
