use vstd::prelude::*;

use crate::kbd::{kbd_spec, KbdCommand, KbdView};
use crate::lexer::{is_space, lower_of, lowercase, same, split_tokens, tokens_of, views};
use crate::mouse::{mouse_spec, MouseCommand};
use crate::number::u32_of;
use crate::wait::{unit_of, wait_spec, Time, WaitCommand};

verus! {

/// One line of a script.
#[allow(non_camel_case_types)]
#[derive(Debug, Clone, PartialEq, Eq)]
pub enum Commands {
    WAIT(WaitCommand),
    KBD(KbdCommand),
    MOUSE(MouseCommand),
}

/// A command with its text, if any, as a sequence of characters.
pub enum CommandView {
    Wait(WaitCommand),
    Kbd(KbdView),
    Mouse(MouseCommand),
}

impl View for Commands {
    type V = CommandView;

    open spec fn view(&self) -> CommandView {
        match self {
            Commands::WAIT(c) => CommandView::Wait(*c),
            Commands::KBD(c) => CommandView::Kbd(c@),
            Commands::MOUSE(c) => CommandView::Mouse(*c),
        }
    }
}

/// A line that is not a command; `line` is its text as it was given.
#[derive(Debug, Clone, PartialEq, Eq)]
pub struct ParseError {
    pub line: String,
}

/// The command that the tokens of a line stand for: the first token is the verb, which
/// picks the grammar of the rest.
pub open spec fn command_spec(w: Seq<Seq<char>>) -> Option<CommandView> {
    if w.len() == 0 {
        None
    } else if w[0] == "wait"@ {
        match wait_spec(w) {
            Some(c) => Some(CommandView::Wait(c)),
            None => None,
        }
    } else if w[0] == "kbd"@ {
        match kbd_spec(w) {
            Some(c) => Some(CommandView::Kbd(c)),
            None => None,
        }
    } else if w[0] == "mouse"@ {
        match mouse_spec(w) {
            Some(c) => Some(CommandView::Mouse(c)),
            None => None,
        }
    } else {
        None
    }
}

/// The command a line of a script stands for; the grammar ignores case.
#[verifier::opaque]
pub open spec fn line_spec(line: Seq<char>) -> Option<CommandView> {
    command_spec(tokens_of(lower_of(line)))
}

/// The text of `s` cut at each newline; there is always one piece more than newlines.
pub open spec fn pieces_of(s: Seq<char>) -> Seq<Seq<char>>
    decreases s.len(),
{
    if s.len() == 0 {
        seq![seq![]]
    } else {
        let p = pieces_of(s.drop_last());
        if s.last() == '\n' {
            p.push(seq![])
        } else {
            p.update(p.len() - 1, p.last().push(s.last()))
        }
    }
}

/// The lines of a text: the pieces between newlines, where a final newline ends the last
/// line and starts none.
pub open spec fn lines_of(s: Seq<char>) -> Seq<Seq<char>> {
    if s.len() == 0 {
        seq![]
    } else if s.last() == '\n' {
        pieces_of(s.drop_last())
    } else {
        pieces_of(s)
    }
}

/// Builds the command for the tokens of one line.
pub fn parse_tokens(words: &Vec<&str>) -> (r: Option<Commands>)
    ensures
        match r {
            Some(c) => command_spec(views(words@)) == Some(c@),
            None => command_spec(views(words@)).is_none(),
        },
{
    if words.len() == 0 {
        return None;
    }
    let verb = words[0];
    if same(verb, "wait") {
        match WaitCommand::parse(words) {
            Some(c) => Some(Commands::WAIT(c)),
            None => None,
        }
    } else if same(verb, "kbd") {
        match KbdCommand::parse(words) {
            Some(c) => Some(Commands::KBD(c)),
            None => None,
        }
    } else if same(verb, "mouse") {
        match MouseCommand::parse(words) {
            Some(c) => Some(Commands::MOUSE(c)),
            None => None,
        }
    } else {
        None
    }
}

/// Parses one line of a script.
pub fn parse_line(line: &str) -> (r: Result<Commands, ParseError>)
    ensures
        match r {
            Ok(c) => line_spec(line@) == Some(c@),
            Err(e) => line_spec(line@).is_none() && e.line@ == line@,
        },
{
    reveal(line_spec);
    let lower = lowercase(line);
    let words = split_tokens(lower.as_str());
    match parse_tokens(&words) {
        Some(c) => Ok(c),
        None => Err(ParseError { line: line.to_owned() }),
    }
}

/// `cmds` are the commands of the lines of `text`, one for each line, in order.
pub open spec fn parsed_as(text: Seq<char>, cmds: Seq<Commands>) -> bool {
    cmds.len() == lines_of(text).len() && forall|i: int|
        0 <= i < cmds.len() ==> line_spec(lines_of(text)[i]) == Some(#[trigger] cmds[i]@)
}

/// A line is never a command when, case-folded, it has no tokens or its first token is
/// not one of the verbs `wait`, `kbd` and `mouse`.
pub proof fn lemma_blank_or_unknown_verb_rejected(line: Seq<char>)
    requires
        ({
            let w = tokens_of(lower_of(line));
            w.len() == 0 || (w[0] != "wait"@ && w[0] != "kbd"@ && w[0] != "mouse"@)
        }),
    ensures
        line_spec(line).is_none(),
{
    reveal(line_spec);
}

/// A text of whitespace alone has no tokens.
pub proof fn lemma_blank_has_no_tokens(s: Seq<char>)
    requires
        forall|i: int| 0 <= i < s.len() ==> is_space(#[trigger] s[i]),
    ensures
        tokens_of(s).len() == 0,
    decreases s.len(),
{
    if s.len() > 0 {
        lemma_blank_has_no_tokens(s.drop_last());
    }
}

/// A line that is blank once case-folded is never a command.
pub proof fn lemma_blank_line_rejected(line: Seq<char>)
    requires
        forall|i: int| 0 <= i < lower_of(line).len() ==> is_space(#[trigger] lower_of(line)[i]),
    ensures
        line_spec(line).is_none(),
{
    lemma_blank_has_no_tokens(lower_of(line));
    reveal(line_spec);
}

/// `wait time <n> <unit>` waits `n` in that unit; `wait time <n>` waits `n` seconds;
/// `wait time` waits zero milliseconds.
pub proof fn lemma_wait_line(line: Seq<char>, amount: Seq<char>, unit: Seq<char>, n: u32)
    requires
        u32_of(amount) == Some(n),
    ensures
        tokens_of(lower_of(line)) == seq!["wait"@, "time"@, amount, unit] ==> line_spec(line)
            == match unit_of(unit, n) {
            Some(t) => Some(CommandView::Wait(WaitCommand::Time(t))),
            None => None,
        },
        unit == "milliseconds"@ ==> unit_of(unit, n) == Some(Time::MilliSeconds(n)),
        unit == "seconds"@ ==> unit_of(unit, n) == Some(Time::Seconds(n)),
        unit == "minutes"@ ==> unit_of(unit, n) == Some(Time::Minutes(n)),
        unit == "hours"@ ==> unit_of(unit, n) == Some(Time::Hours(n)),
        tokens_of(lower_of(line)) == seq!["wait"@, "time"@, amount] ==> line_spec(line) == Some(
            CommandView::Wait(WaitCommand::Time(Time::Seconds(n))),
        ),
        tokens_of(lower_of(line)) == seq!["wait"@, "time"@] ==> line_spec(line) == Some(
            CommandView::Wait(WaitCommand::Time(Time::MilliSeconds(0))),
        ),
{
    reveal(line_spec);
    reveal_strlit("wait");
    reveal_strlit("kbd");
    reveal_strlit("mouse");
    reveal_strlit("milliseconds");
    reveal_strlit("seconds");
    reveal_strlit("minutes");
    reveal_strlit("hours");
    assert("milliseconds"@.len() == 12);
    assert("seconds"@.len() == 7);
    assert("minutes"@.len() == 7);
    assert("seconds"@[0] != "minutes"@[0]);
}

/// Parsing is case-insensitive: two lines with the same lowercase form stand for the
/// same command, or both for none.
pub proof fn lemma_case_insensitive(a: Seq<char>, b: Seq<char>)
    requires
        lower_of(a) == lower_of(b),
    ensures
        line_spec(a) == line_spec(b),
{
    reveal(line_spec);
}

/// Two parses of one script agree: both give, line for line and in the order of the
/// lines, the same commands.
pub proof fn lemma_parse_twice_agrees(text: Seq<char>, first: Seq<Commands>, second: Seq<Commands>)
    requires
        parsed_as(text, first),
        parsed_as(text, second),
    ensures
        first.len() == second.len() && first.len() == lines_of(text).len(),
        forall|i: int| 0 <= i < first.len() ==> (#[trigger] first[i])@ == second[i]@,
        forall|i: int|
            0 <= i < first.len() ==> line_spec(lines_of(text)[i]) == Some((#[trigger] first[i])@),
{
    assert forall|i: int| 0 <= i < first.len() implies (#[trigger] first[i])@ == second[i]@ by {
        assert(line_spec(lines_of(text)[i]) == Some(first[i]@));
        assert(line_spec(lines_of(text)[i]) == Some(second[i]@));
    }
}

proof fn lemma_pieces_step(s: Seq<char>, done: Seq<Seq<char>>, start: int, i: int)
    requires
        0 <= start <= i < s.len(),
        pieces_of(s.subrange(0, i)) == done.push(s.subrange(start, i)),
    ensures
        s[i] == '\n' ==> pieces_of(s.subrange(0, i + 1)) == done.push(s.subrange(start, i)).push(
            s.subrange(i + 1, i + 1),
        ),
        s[i] != '\n' ==> pieces_of(s.subrange(0, i + 1)) == done.push(s.subrange(start, i + 1)),
{
    let pre = s.subrange(0, i);
    let cur = s.subrange(0, i + 1);
    assert(cur.drop_last() =~= pre);
    assert(s.subrange(i + 1, i + 1) =~= seq![]);
    assert(s.subrange(start, i + 1) =~= s.subrange(start, i).push(s[i]));
    assert(done.push(s.subrange(start, i)).update(done.len() as int, s.subrange(start, i + 1))
        =~= done.push(s.subrange(start, i + 1)));
}

/// `cmds` holds the commands of the lines `done` while all of them parse, and `err` the
/// first line that does not once one fails.
#[verifier::opaque]
spec fn parsed_prefix(done: Seq<Seq<char>>, cmds: Seq<Commands>, err: Option<ParseError>) -> bool {
    match err {
        None => cmds.len() == done.len() && forall|k: int|
            0 <= k < done.len() ==> line_spec(done[k]) == Some(#[trigger] cmds[k]@),
        Some(e) => exists|k: int|
            0 <= k < done.len() && line_spec(#[trigger] done[k]).is_none() && e.line@ == done[k]
                && forall|j: int| 0 <= j < k ==> (#[trigger] line_spec(done[j])).is_some(),
    }
}

/// Parses the next line of a script unless an earlier one has failed.
fn take_line(
    line: &str,
    cmds: &mut Vec<Commands>,
    err: &mut Option<ParseError>,
    Ghost(done): Ghost<Seq<Seq<char>>>,
)
    requires
        parsed_prefix(done, old(cmds)@, *old(err)),
    ensures
        parsed_prefix(done.push(line@), final(cmds)@, *final(err)),
{
    reveal(parsed_prefix);
    let ghost d2 = done.push(line@);
    let ghost before = cmds@;
    if err.is_none() {
        match parse_line(line) {
            Ok(cmd) => {
                cmds.push(cmd);
                assert(cmds@ == before.push(cmd));
                assert forall|k: int| 0 <= k < d2.len() implies line_spec(d2[k]) == Some(
                    #[trigger] cmds@[k]@,
                ) by {
                    if k < done.len() {
                        assert(d2[k] == done[k]);
                        assert(cmds@[k] == before[k]);
                    }
                }
            },
            Err(e) => {
                *err = Some(e);
                let ghost k = done.len() as int;
                assert(line_spec(d2[k]).is_none());
                assert forall|j: int| 0 <= j < k implies (#[trigger] line_spec(d2[j])).is_some() by {
                    assert(d2[j] == done[j]);
                    assert(line_spec(done[j]) == Some(before[j]@));
                }
            },
        }
    } else {
        let ghost e = err->Some_0;
        let ghost k = choose|k: int|
            0 <= k < done.len() && line_spec(#[trigger] done[k]).is_none() && e.line@ == done[k]
                && forall|j: int| 0 <= j < k ==> (#[trigger] line_spec(done[j])).is_some();
        assert(d2[k] == done[k]);
        assert forall|j: int| 0 <= j < k implies (#[trigger] line_spec(d2[j])).is_some() by {
            assert(d2[j] == done[j]);
        }
        assert(line_spec(d2[k]).is_none());
    }
}

/// Parses a whole script, one command per line. The first line that is not a command
/// stops the parse and is reported.
pub fn parse_buffer(buffer: &str) -> (r: Result<Vec<Commands>, ParseError>)
    ensures
        r.is_ok() <==> forall|i: int|
            0 <= i < lines_of(buffer@).len() ==> (#[trigger] line_spec(lines_of(buffer@)[i])).is_some(),
        r matches Ok(v) ==> parsed_as(buffer@, v@),
        r matches Err(e) ==> exists|i: int|
            0 <= i < lines_of(buffer@).len() && line_spec(#[trigger] lines_of(buffer@)[i]).is_none()
                && e.line@ == lines_of(buffer@)[i] && forall|j: int|
                0 <= j < i ==> (#[trigger] line_spec(lines_of(buffer@)[j])).is_some(),
{
    let n = buffer.unicode_len();
    let ghost s = buffer@;
    let ghost mut done: Seq<Seq<char>> = seq![];
    let mut cmds: Vec<Commands> = Vec::new();
    let mut err: Option<ParseError> = None;
    let mut start: usize = 0;
    let mut i: usize = 0;
    assert(s.subrange(0, 0) =~= seq![]);
    assert(done.push(s.subrange(0, 0)) =~= seq![seq![]]);
    assert(parsed_prefix(done, cmds@, err)) by {
        reveal(parsed_prefix);
    }
    while i < n
        invariant
            s == buffer@,
            n == s.len(),
            start <= i <= n,
            start > 0 ==> s[start - 1] == '\n',
            forall|j: int| start <= j < i ==> s[j] != '\n',
            pieces_of(s.subrange(0, i as int)) == done.push(s.subrange(start as int, i as int)),
            parsed_prefix(done, cmds@, err),
        decreases n - i,
    {
        let c = buffer.get_char(i);
        proof {
            lemma_pieces_step(s, done, start as int, i as int);
        }
        if c == '\n' {
            let line = buffer.substring_char(start, i);
            take_line(line, &mut cmds, &mut err, Ghost(done));
            proof {
                done = done.push(line@);
            }
            start = i + 1;
        }
        i = i + 1;
    }
    assert(s.subrange(0, n as int) =~= s);
    if start < n {
        let line = buffer.substring_char(start, n);
        take_line(line, &mut cmds, &mut err, Ghost(done));
        proof {
            done = done.push(line@);
        }
        assert(s.last() != '\n');
    } else if n > 0 {
        assert(s.last() == '\n');
        assert(s.drop_last() =~= s.subrange(0, n - 1));
        assert(pieces_of(s) =~= pieces_of(s.drop_last()).push(seq![]));
        assert(done =~= pieces_of(s).drop_last());
    }
    assert(done =~= lines_of(s));
    proof {
        reveal(parsed_prefix);
    }
    match err {
        Some(e) => {
            let ghost k = choose|k: int|
                0 <= k < done.len() && line_spec(#[trigger] done[k]).is_none() && e.line@ == done[k]
                    && forall|j: int| 0 <= j < k ==> (#[trigger] line_spec(done[j])).is_some();
            assert(!line_spec(lines_of(buffer@)[k]).is_some());
            Err(e)
        },
        None => {
            assert(parsed_as(buffer@, cmds@));
            assert forall|i: int| 0 <= i < done.len() implies (#[trigger] line_spec(
                done[i],
            )).is_some() by {
                assert(line_spec(done[i]) == Some(cmds@[i]@));
            }
            Ok(cmds)
        },
    }
}

} // verus!
