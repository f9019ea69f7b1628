use vstd::prelude::*;

use crate::lexer::{same, views};

verus! {

/// A keyboard key: a named key, or the key that types one character.
#[derive(Debug, Clone, Copy, PartialEq, Eq, Structural)]
pub enum Key {
    Space,
    Tab,
    Backspace,
    UpArrow,
    DownArrow,
    LeftArrow,
    RightArrow,
    Insert,
    Delete,
    Home,
    End,
    PageUp,
    PageDown,
    Escape,
    Unicode(char),
}

/// A `kbd` line.
#[derive(Debug, Clone, PartialEq, Eq)]
pub enum KbdCommand {
    Press(Key),
    Release(Key),
    Click(Key),
    /// Types the text.
    Type(String),
}

/// A `kbd` command with its text as a sequence of characters.
pub enum KbdView {
    Press(Key),
    Release(Key),
    Click(Key),
    Type(Seq<char>),
}

impl View for KbdCommand {
    type V = KbdView;

    open spec fn view(&self) -> KbdView {
        match self {
            KbdCommand::Press(k) => KbdView::Press(*k),
            KbdCommand::Release(k) => KbdView::Release(*k),
            KbdCommand::Click(k) => KbdView::Click(*k),
            KbdCommand::Type(s) => KbdView::Type(s@),
        }
    }
}

/// The key that a name of the fixed vocabulary stands for.
pub open spec fn named_key(t: Seq<char>) -> Option<Key> {
    if t == "space"@ {
        Some(Key::Space)
    } else if t == "tab"@ {
        Some(Key::Tab)
    } else if t == "backspace"@ {
        Some(Key::Backspace)
    } else if t == "up"@ {
        Some(Key::UpArrow)
    } else if t == "down"@ {
        Some(Key::DownArrow)
    } else if t == "left"@ {
        Some(Key::LeftArrow)
    } else if t == "right"@ {
        Some(Key::RightArrow)
    } else if t == "insert"@ {
        Some(Key::Insert)
    } else if t == "delete"@ {
        Some(Key::Delete)
    } else if t == "home"@ {
        Some(Key::Home)
    } else if t == "end"@ {
        Some(Key::End)
    } else if t == "page_up"@ {
        Some(Key::PageUp)
    } else if t == "page_down"@ {
        Some(Key::PageDown)
    } else if t == "esc"@ {
        Some(Key::Escape)
    } else {
        None
    }
}

/// The key a token resolves to: a named key, else the key of the token's first character.
/// An empty token resolves to nothing.
pub open spec fn key_of(t: Seq<char>) -> Option<Key> {
    match named_key(t) {
        Some(k) => Some(k),
        None => if t.len() > 0 {
            Some(Key::Unicode(t[0]))
        } else {
            None
        },
    }
}

/// Tokens joined with single spaces.
pub open spec fn join(ws: Seq<Seq<char>>) -> Seq<char>
    decreases ws.len(),
{
    if ws.len() == 0 {
        seq![]
    } else if ws.len() == 1 {
        ws[0]
    } else {
        join(ws.drop_last()) + " "@ + ws.last()
    }
}

/// The meaning of the tokens of a `kbd` line (the verb included).
pub open spec fn kbd_spec(w: Seq<Seq<char>>) -> Option<KbdView> {
    if w.len() < 3 {
        None
    } else if w[1] == "press"@ {
        match key_of(w[2]) {
            Some(k) => Some(KbdView::Press(k)),
            None => None,
        }
    } else if w[1] == "release"@ {
        match key_of(w[2]) {
            Some(k) => Some(KbdView::Release(k)),
            None => None,
        }
    } else if w[1] == "click"@ {
        match key_of(w[2]) {
            Some(k) => Some(KbdView::Click(k)),
            None => None,
        }
    } else if w[1] == "type"@ {
        Some(KbdView::Type(join(w.subrange(2, w.len() as int))))
    } else {
        None
    }
}

/// A named key resolves to its key; a token of one character resolves to the key of that
/// character.
pub proof fn lemma_key_resolution(t: Seq<char>)
    ensures
        named_key(t) matches Some(k) ==> key_of(t) == Some(k),
        t.len() == 1 ==> key_of(t) == Some(Key::Unicode(t[0])),
{
    reveal_strlit("space");
    reveal_strlit("tab");
    reveal_strlit("backspace");
    reveal_strlit("up");
    reveal_strlit("down");
    reveal_strlit("left");
    reveal_strlit("right");
    reveal_strlit("insert");
    reveal_strlit("delete");
    reveal_strlit("home");
    reveal_strlit("end");
    reveal_strlit("page_up");
    reveal_strlit("page_down");
    reveal_strlit("esc");
    if t.len() == 1 {
        assert(t != "up"@ && t != "tab"@ && t != "end"@ && t != "esc"@);
        assert(named_key(t).is_none());
    }
}

/// Builds a value from one token.
pub trait FromString: Sized {
    /// What `from_string` returns for a token.
    spec fn from_string_spec(st: Seq<char>) -> Option<Self>;

    fn from_string(st: &str) -> (r: Option<Self>)
        ensures
            r == Self::from_string_spec(st@),
    ;
}

impl FromString for Key {
    open spec fn from_string_spec(st: Seq<char>) -> Option<Key> {
        key_of(st)
    }

    fn from_string(st: &str) -> (r: Option<Key>) {
        if same(st, "space") {
            Some(Key::Space)
        } else if same(st, "tab") {
            Some(Key::Tab)
        } else if same(st, "backspace") {
            Some(Key::Backspace)
        } else if same(st, "up") {
            Some(Key::UpArrow)
        } else if same(st, "down") {
            Some(Key::DownArrow)
        } else if same(st, "left") {
            Some(Key::LeftArrow)
        } else if same(st, "right") {
            Some(Key::RightArrow)
        } else if same(st, "insert") {
            Some(Key::Insert)
        } else if same(st, "delete") {
            Some(Key::Delete)
        } else if same(st, "home") {
            Some(Key::Home)
        } else if same(st, "end") {
            Some(Key::End)
        } else if same(st, "page_up") {
            Some(Key::PageUp)
        } else if same(st, "page_down") {
            Some(Key::PageDown)
        } else if same(st, "esc") {
            Some(Key::Escape)
        } else if st.unicode_len() > 0 {
            Some(Key::Unicode(st.get_char(0)))
        } else {
            None
        }
    }
}

/// Joins `words[from..]` with single spaces.
fn join_from(words: &Vec<&str>, from: usize) -> (r: String)
    requires
        from < words@.len(),
    ensures
        r@ == join(views(words@).subrange(from as int, words@.len() as int)),
{
    let ghost w = views(words@);
    let n = words.len();
    let mut s = words[from].to_owned();
    let mut i: usize = from + 1;
    assert(w.subrange(from as int, i as int) =~= seq![w[from as int]]);
    while i < n
        invariant
            n == words@.len(),
            w == views(words@),
            from < i <= words@.len(),
            s@ == join(w.subrange(from as int, i as int)),
        decreases words@.len() - i,
    {
        s.append(" ");
        s.append(words[i]);
        assert(w.subrange(from as int, i + 1).drop_last() =~= w.subrange(from as int, i as int));
        i = i + 1;
    }
    s
}

impl KbdCommand {
    /// Parses the tokens of a `kbd` line; the first token is the verb and is not read.
    pub fn parse(words: &Vec<&str>) -> (r: Option<KbdCommand>)
        ensures
            match r {
                Some(c) => kbd_spec(views(words@)) == Some(c@),
                None => kbd_spec(views(words@)).is_none(),
            },
    {
        if words.len() < 3 {
            return None;
        }
        let sub = words[1];
        if same(sub, "press") {
            match Key::from_string(words[2]) {
                Some(k) => Some(KbdCommand::Press(k)),
                None => None,
            }
        } else if same(sub, "release") {
            match Key::from_string(words[2]) {
                Some(k) => Some(KbdCommand::Release(k)),
                None => None,
            }
        } else if same(sub, "click") {
            match Key::from_string(words[2]) {
                Some(k) => Some(KbdCommand::Click(k)),
                None => None,
            }
        } else if same(sub, "type") {
            Some(KbdCommand::Type(join_from(words, 2)))
        } else {
            None
        }
    }
}

} // verus!
