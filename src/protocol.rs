//! The engine's text-command syntax: quoting file paths and spelling the
//! commands that the player issues.
use vstd::prelude::*;

use crate::text::{decimal, decimal_text, push_char};

verus! {

/// Where `load_file` puts the file in the playlist.
#[derive(Debug, Clone, Copy, PartialEq, Eq, Structural)]
pub enum LoadMode {
    /// Stop playback and play the file at once.
    Replace,
    /// Add the file at the end of the playlist.
    Append,
    /// Add the file at the end, and play it if nothing is playing.
    AppendPlay,
    /// Add the file right after the current entry.
    InsertNext,
    /// Add the file right after the current entry, and play it if nothing is playing.
    InsertNextPlay,
    /// Add the file at the given playlist position.
    InsertAt(usize),
    /// Add the file at the given playlist position, and play it if nothing is playing.
    InsertAtPlay(usize),
}

impl Default for LoadMode {
    fn default() -> (r: LoadMode)
        ensures
            r == LoadMode::Replace,
    {
        LoadMode::Replace
    }
}

/// The characters that stand for `c` inside a double-quoted command argument.
pub open spec fn escape_char(c: char) -> Seq<char> {
    if c == '\\' || c == '\'' || c == '"' {
        seq!['\\', c]
    } else {
        seq![c]
    }
}

/// `p` with a backslash put before each backslash, single quote and double quote.
pub open spec fn escaped(p: Seq<char>) -> Seq<char>
    decreases p.len(),
{
    if p.len() == 0 {
        Seq::empty()
    } else {
        escaped(p.drop_last()) + escape_char(p.last())
    }
}

/// How the engine reads a double-quoted argument, from just after its opening
/// quote: a backslash takes the next character literally, and the first
/// double quote not so taken closes the argument. The result is the literal
/// text and the number of characters read, closing quote included; `None`
/// where the argument is never closed.
pub open spec fn unquote(s: Seq<char>) -> Option<(Seq<char>, nat)>
    decreases s.len(),
{
    if s.len() == 0 {
        None
    } else if s[0] == '"' {
        Some((Seq::empty(), 1))
    } else if s[0] == '\\' {
        if s.len() < 2 {
            None
        } else {
            match unquote(s.subrange(2, s.len() as int)) {
                Some((lit, n)) => Some((seq![s[1]] + lit, n + 2)),
                None => None,
            }
        }
    } else {
        match unquote(s.drop_first()) {
            Some((lit, n)) => Some((seq![s[0]] + lit, n + 1)),
            None => None,
        }
    }
}

proof fn lemma_escaped_cons(c: char, p: Seq<char>)
    ensures
        escaped(seq![c] + p) == escape_char(c) + escaped(p),
    decreases p.len(),
{
    let q = seq![c] + p;
    if p.len() == 0 {
        assert(q.drop_last() =~= Seq::<char>::empty());
        assert(escaped(q.drop_last()) =~= Seq::<char>::empty());
        assert(escaped(q) =~= escape_char(c));
        assert(escaped(p) =~= Seq::<char>::empty());
        assert(escape_char(c) + escaped(p) =~= escape_char(c));
    } else {
        assert(q.drop_last() =~= seq![c] + p.drop_last());
        assert(q.last() == p.last());
        lemma_escaped_cons(c, p.drop_last());
        assert(escaped(q) =~= escape_char(c) + escaped(p));
    }
}

/// A quoted path is one argument: reading the quoted argument that starts
/// with the escaped path gives back the path exactly, and ends at the quote
/// that follows it, whatever comes after.
pub proof fn lemma_unquote_escaped(p: Seq<char>, rest: Seq<char>)
    ensures
        unquote(escaped(p) + seq!['"'] + rest) == Some((p, escaped(p).len() + 1)),
    decreases p.len(),
{
    let s = escaped(p) + seq!['"'] + rest;
    if p.len() == 0 {
        assert(escaped(p) =~= Seq::<char>::empty());
        assert(s[0] == '"');
        assert(p =~= Seq::<char>::empty());
    } else {
        let c = p[0];
        let tail = p.drop_first();
        assert(p =~= seq![c] + tail);
        lemma_escaped_cons(c, tail);
        lemma_unquote_escaped(tail, rest);
        let after = escaped(tail) + seq!['"'] + rest;
        if c == '\\' || c == '\'' || c == '"' {
            assert(s =~= seq!['\\', c] + after);
            assert(s.subrange(2, s.len() as int) =~= after);
        } else {
            assert(s =~= seq![c] + after);
            assert(s.drop_first() =~= after);
        }
    }
}

/// The number of backslashes that end `s`.
pub open spec fn trailing_backslashes(s: Seq<char>) -> nat
    decreases s.len(),
{
    if s.len() > 0 && s.last() == '\\' {
        1 + trailing_backslashes(s.drop_last())
    } else {
        0
    }
}

/// An escaped path never ends a quoted argument early: each double quote in
/// it follows an odd run of backslashes, so it is taken literally, and the
/// path ends after an even run, so the quote that follows it closes the
/// argument.
pub proof fn lemma_escaped_quotes_are_escaped(p: Seq<char>)
    ensures
        trailing_backslashes(escaped(p)) % 2 == 0,
        forall|i: int| 0 <= i < escaped(p).len() && #[trigger] escaped(p)[i] == '"'
            ==> trailing_backslashes(escaped(p).take(i)) % 2 == 1,
    decreases p.len(),
{
    if p.len() > 0 {
        let e0 = escaped(p.drop_last());
        let c = p.last();
        let e = escaped(p);
        lemma_escaped_quotes_are_escaped(p.drop_last());
        assert(e == e0 + escape_char(c));
        if c == '\\' || c == '\'' || c == '"' {
            let mid = e0.push('\\');
            assert(e =~= mid.push(c));
            assert(mid.drop_last() =~= e0);
            assert(e.drop_last() =~= mid);
            if c == '\\' {
                assert(e.last() == '\\' && mid.last() == '\\');
                assert(trailing_backslashes(mid) == 1 + trailing_backslashes(e0));
                assert(trailing_backslashes(e) == 1 + trailing_backslashes(mid));
            }
        } else {
            assert(e =~= e0.push(c));
            assert(e.drop_last() =~= e0);
        }
        assert forall|i: int| 0 <= i < e.len() && #[trigger] e[i] == '"'
            implies trailing_backslashes(e.take(i)) % 2 == 1 by {
            if i < e0.len() {
                assert(e.take(i) =~= e0.take(i));
                assert(e0[i] == e[i]);
            } else {
                assert(c == '"');
                assert(i == e0.len() + 1);
                assert(e.take(i) =~= e0.push('\\'));
                assert(e0.push('\\').drop_last() =~= e0);
            }
        }
    }
}

/// Quotes `path` for a double-quoted command argument.
pub fn escape_path(path: &str) -> (r: String)
    ensures
        r@ == escaped(path@),
{
    let mut out = String::new();
    let ghost mut seen: Seq<char> = Seq::empty();
    for c in it: path.chars()
        invariant
            it.seq() == path@,
            seen == path@.take(it.index() as int),
            out@ == escaped(seen),
    {
        let ghost prev = seen;
        proof {
            seen = seen.push(c);
            assert(seen =~= path@.take(it.index() + 1));
            assert(seen.drop_last() =~= prev);
        }
        if c == '\\' || c == '\'' || c == '"' {
            push_char(&mut out, '\\');
        }
        push_char(&mut out, c);
        assert(out@ =~= escaped(seen));
    }
    assert(seen =~= path@);
    out
}

/// The words that follow the quoted path in a `loadfile` command.
pub open spec fn mode_suffix(mode: LoadMode) -> Seq<char> {
    match mode {
        LoadMode::Replace => Seq::empty(),
        LoadMode::Append => " append"@,
        LoadMode::AppendPlay => " append-play"@,
        LoadMode::InsertNext => " insert-next"@,
        LoadMode::InsertNextPlay => " insert-next-play"@,
        LoadMode::InsertAt(i) => " insert-at "@ + decimal(i as nat),
        LoadMode::InsertAtPlay(i) => " insert-at-play "@ + decimal(i as nat),
    }
}

/// The `loadfile` command that loads `path` in the given mode.
pub open spec fn load_command(path: Seq<char>, mode: LoadMode) -> Seq<char> {
    "loadfile \""@ + escaped(path) + "\""@ + mode_suffix(mode)
}

/// The `loadlist` command that loads the playlist file at `path`.
pub open spec fn loadlist_command(path: Seq<char>) -> Seq<char> {
    "loadlist \""@ + escaped(path) + "\""@
}

/// Spells the `loadfile` command for `path` and `mode`.
pub fn load_command_text(path: &str, mode: LoadMode) -> (r: String)
    ensures
        r@ == load_command(path@, mode),
{
    let mut cmd = String::from_str("loadfile \"");
    let escaped_path = escape_path(path);
    cmd.append(escaped_path.as_str());
    cmd.append("\"");
    match mode {
        LoadMode::Replace => {},
        LoadMode::Append => cmd.append(" append"),
        LoadMode::AppendPlay => cmd.append(" append-play"),
        LoadMode::InsertNext => cmd.append(" insert-next"),
        LoadMode::InsertNextPlay => cmd.append(" insert-next-play"),
        LoadMode::InsertAt(i) => {
            cmd.append(" insert-at ");
            let n = decimal_text(i as u64);
            cmd.append(n.as_str());
        },
        LoadMode::InsertAtPlay(i) => {
            cmd.append(" insert-at-play ");
            let n = decimal_text(i as u64);
            cmd.append(n.as_str());
        },
    }
    assert(cmd@ =~= load_command(path@, mode));
    cmd
}

/// Spells the `loadlist` command for `path`.
pub fn loadlist_command_text(path: &str) -> (r: String)
    ensures
        r@ == loadlist_command(path@),
{
    let mut cmd = String::from_str("loadlist \"");
    let escaped_path = escape_path(path);
    cmd.append(escaped_path.as_str());
    cmd.append("\"");
    assert(cmd@ =~= loadlist_command(path@));
    cmd
}

/// The argument of a `loadfile` command is the loaded path: read from just
/// after the opening quote, the command's quoted argument is the path itself,
/// and it closes where the mode words begin.
pub proof fn lemma_load_command_argument(path: Seq<char>, mode: LoadMode)
    ensures
        unquote(load_command(path, mode).subrange(10, load_command(path, mode).len() as int))
            == Some((path, escaped(path).len() + 1)),
{
    reveal_strlit("loadfile \"");
    reveal_strlit("\"");
    let cmd = load_command(path, mode);
    let prefix = "loadfile \""@;
    assert(prefix.len() == 10);
    assert(cmd.subrange(10, cmd.len() as int) =~= escaped(path) + seq!['"'] + mode_suffix(mode));
    lemma_unquote_escaped(path, mode_suffix(mode));
}

} // verus!
