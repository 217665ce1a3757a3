//! The wire protocol: one newline-terminated line per command, parsed and
//! applied to the status record. A short line is a sentinel that ends the
//! connection; unrecognized lines are ignored and the connection stays open.
use vstd::prelude::*;

use crate::state::{Input, InputModel};

verus! {

/// Ghost model of one parsed protocol line.
pub ghost enum CommandModel {
    SetSync(bool),
    SetWeather(Seq<char>),
    SetTemperature(Seq<char>),
    Ignore,
    Disconnect,
}

/// One parsed protocol line: a field update, a line to ignore, or the
/// sentinel that closes the connection.
pub enum Command {
    SetSync(bool),
    SetWeather(String),
    SetTemperature(String),
    Ignore,
    Disconnect,
}

impl View for Command {
    type V = CommandModel;

    open spec fn view(&self) -> CommandModel {
        match self {
            Command::SetSync(b) => CommandModel::SetSync(*b),
            Command::SetWeather(w) => CommandModel::SetWeather(w@),
            Command::SetTemperature(t) => CommandModel::SetTemperature(t@),
            Command::Ignore => CommandModel::Ignore,
            Command::Disconnect => CommandModel::Disconnect,
        }
    }
}

/// A line shorter than three characters (which covers a bare `"\n"` or
/// `"\r\n"`) silently ends the connection.
pub open spec fn is_sentinel(line: Seq<char>) -> bool {
    line.len() < 3
}

/// The line with its trailing terminator (`"\n"` or `"\r\n"`) removed;
/// interior content is kept verbatim.
pub open spec fn strip_terminator(line: Seq<char>) -> Seq<char> {
    if line.len() >= 2 && line[line.len() - 2] == '\r' && line[line.len() - 1] == '\n' {
        line.take(line.len() - 2)
    } else if line.len() >= 1 && line[line.len() - 1] == '\n' {
        line.take(line.len() - 1)
    } else {
        line
    }
}

/// What one raw line (terminator still attached) means.
pub open spec fn spec_parse(line: Seq<char>) -> CommandModel {
    if is_sentinel(line) {
        CommandModel::Disconnect
    } else {
        let b = strip_terminator(line);
        if b.len() < 2 {
            CommandModel::Ignore
        } else if b[0] == 's' && b[1] == '=' {
            if b.len() < 3 {
                CommandModel::Ignore
            } else if b[2] == '1' || b[2] == 'y' || b[2] == 'Y' {
                CommandModel::SetSync(true)
            } else if b[2] == '0' || b[2] == 'n' || b[2] == 'N' {
                CommandModel::SetSync(false)
            } else {
                CommandModel::Ignore
            }
        } else if b[0] == 'w' && b[1] == '=' {
            CommandModel::SetWeather(b.skip(2))
        } else if b[0] == 't' && b[1] == '=' {
            CommandModel::SetTemperature(b.skip(2))
        } else {
            CommandModel::Ignore
        }
    }
}

/// The state after one command: an update replaces exactly its one field;
/// an ignored line and the sentinel leave the record untouched.
pub open spec fn spec_apply(s: InputModel, c: CommandModel) -> InputModel {
    match c {
        CommandModel::SetSync(b) => InputModel { sync: b, ..s },
        CommandModel::SetWeather(w) => InputModel { weather: w, ..s },
        CommandModel::SetTemperature(t) => InputModel { temperature: t, ..s },
        CommandModel::Ignore => s,
        CommandModel::Disconnect => s,
    }
}

/// Whether the command writes a field (the debug echo marks such lines).
pub open spec fn spec_is_update(c: CommandModel) -> bool {
    c is SetSync || c is SetWeather || c is SetTemperature
}

/// Parse one raw line, terminator still attached.
pub fn parse_line(line: &str) -> (c: Command)
    ensures
        c@ == spec_parse(line@),
{
    let n = line.unicode_len();
    if n < 3 {
        return Command::Disconnect;
    }
    let last = line.get_char(n - 1);
    let penultimate = line.get_char(n - 2);
    let stripped: usize = if penultimate == '\r' && last == '\n' {
        2
    } else if last == '\n' {
        1
    } else {
        0
    };
    let b = line.substring_char(0, n - stripped);
    proof {
        assert(b@ =~= strip_terminator(line@));
    }
    let m = n - stripped;
    if m < 2 {
        return Command::Ignore;
    }
    let c0 = b.get_char(0);
    let c1 = b.get_char(1);
    if c0 == 's' && c1 == '=' {
        if m < 3 {
            return Command::Ignore;
        }
        let c2 = b.get_char(2);
        if c2 == '1' || c2 == 'y' || c2 == 'Y' {
            Command::SetSync(true)
        } else if c2 == '0' || c2 == 'n' || c2 == 'N' {
            Command::SetSync(false)
        } else {
            Command::Ignore
        }
    } else if c0 == 'w' && c1 == '=' {
        let rest = b.substring_char(2, m);
        proof {
            assert(rest@ =~= strip_terminator(line@).skip(2));
        }
        Command::SetWeather(String::from_str(rest))
    } else if c0 == 't' && c1 == '=' {
        let rest = b.substring_char(2, m);
        proof {
            assert(rest@ =~= strip_terminator(line@).skip(2));
        }
        Command::SetTemperature(String::from_str(rest))
    } else {
        Command::Ignore
    }
}

/// Apply one command to the status record; returns whether a field was set.
pub fn apply_command(input: &mut Input, c: Command) -> (set: bool)
    ensures
        final(input)@ == spec_apply(old(input)@, c@),
        set == spec_is_update(c@),
{
    match c {
        Command::SetSync(b) => {
            input.sync = b;
            true
        }
        Command::SetWeather(w) => {
            input.weather = w;
            true
        }
        Command::SetTemperature(t) => {
            input.temperature = t;
            true
        }
        Command::Ignore => false,
        Command::Disconnect => false,
    }
}

/// Parse one raw line and apply it: the whole effect of a connection
/// handler's loop body on the status record. Returns `(keep_open, set)`:
/// whether the connection stays open, and whether a field was written.
pub fn handle_line(input: &mut Input, line: &str) -> (r: (bool, bool))
    ensures
        final(input)@ == spec_apply(old(input)@, spec_parse(line@)),
        r.0 == !(spec_parse(line@) is Disconnect),
        r.1 == spec_is_update(spec_parse(line@)),
{
    let c = parse_line(line);
    let keep_open = if let Command::Disconnect = c {
        false
    } else {
        true
    };
    let set = apply_command(input, c);
    (keep_open, set)
}

/// A line terminator as it may arrive on the wire: nothing (end of stream),
/// a bare newline, or a carriage return and newline.
pub open spec fn is_line_terminator(t: Seq<char>) -> bool {
    t == Seq::<char>::empty() || t == seq!['\n'] || t == seq!['\r', '\n']
}

/// Law: a line `"s=" + c + rest` sets the sync flag to true for `c` in
/// `{1, y, Y}`, to false for `c` in `{0, n, N}`, and for any other `c`
/// changes nothing while keeping the connection open. No such line touches
/// the weather or temperature fields.
pub proof fn lemma_sync_line(st: InputModel, line: Seq<char>, c: char, rest: Seq<char>)
    requires
        line == seq!['s', '=', c] + rest,
    ensures
        (c == '1' || c == 'y' || c == 'Y') ==> spec_parse(line) == CommandModel::SetSync(true),
        (c == '0' || c == 'n' || c == 'N') ==> spec_parse(line) == CommandModel::SetSync(false),
        spec_apply(st, spec_parse(line)) == (InputModel {
            sync: if c == '1' || c == 'y' || c == 'Y' {
                true
            } else if c == '0' || c == 'n' || c == 'N' {
                false
            } else {
                st.sync
            },
            ..st
        }),
        !(spec_parse(line) is Disconnect),
{
    assert(line.len() == 3 + rest.len());
    assert(line[0] == 's' && line[1] == '=' && line[2] == c);
    let b = strip_terminator(line);
    assert(b == line.take(line.len() - 2) || b == line.take(line.len() - 1) || b == line);
    assert(b.len() >= 2 ==> b[0] == 's' && b[1] == '=');
    if b.len() >= 3 {
        assert(b[2] == c);
    } else {
        // Only a terminator directly after the flag position can shorten the
        // stripped line below three characters, and then `c` is that
        // terminator's first character.
        assert(b.len() == 2 ==> (c == '\n' || c == '\r'));
    }
}

/// Law: a line `"w=" + text + terminator` (or `"t=" + ...`) replaces the
/// weather (or temperature) field with exactly `text`, even empty text, with
/// no trimming of interior content; the other fields are untouched. `text`
/// is one line's payload, so it holds no terminator characters.
pub proof fn lemma_replace_line(st: InputModel, p: char, text: Seq<char>, term: Seq<char>)
    requires
        p == 'w' || p == 't',
        is_line_terminator(term),
        forall|i: int| 0 <= i < text.len() ==> text[i] != '\n' && text[i] != '\r',
        text.len() + term.len() >= 1,
    ensures
        p == 'w' ==> spec_parse(seq![p, '='] + text + term) == CommandModel::SetWeather(text),
        p == 't' ==> spec_parse(seq![p, '='] + text + term) == CommandModel::SetTemperature(text),
        spec_apply(st, spec_parse(seq![p, '='] + text + term)) == (InputModel {
            weather: if p == 'w' {
                text
            } else {
                st.weather
            },
            temperature: if p == 't' {
                text
            } else {
                st.temperature
            },
            ..st
        }),
{
    let line = seq![p, '='] + text + term;
    assert(line.len() == 2 + text.len() + term.len());
    assert(line[0] == p && line[1] == '=');
    assert(forall|i: int| 0 <= i < text.len() ==> line[2 + i] == text[i]);
    let b = strip_terminator(line);
    if term == seq!['\r', '\n'] {
        assert(line[line.len() - 2] == '\r' && line[line.len() - 1] == '\n');
        assert(b =~= seq![p, '='] + text);
    } else if term == seq!['\n'] {
        assert(line[line.len() - 1] == '\n');
        assert(line.len() >= 2);
        if line.len() >= 2 && line[line.len() - 2] == '\r' {
            assert(line.len() - 2 >= 1);
            if line.len() - 2 == 1 {
                assert(line[1] == '=');
                assert(false);
            } else {
                assert(line[line.len() - 2] == text[text.len() - 1]);
                assert(false);
            }
        }
        assert(b =~= seq![p, '='] + text);
    } else {
        assert(term == Seq::<char>::empty());
        assert(text.len() >= 1);
        assert(line =~= seq![p, '='] + text);
        assert(line[line.len() - 1] == text[text.len() - 1]);
        assert(line[line.len() - 1] != '\n');
        assert(b == line);
        assert(b =~= seq![p, '='] + text);
    }
    assert(b.len() == 2 + text.len());
    assert(b.skip(2) =~= text);
}

/// Law: a line of fewer than three characters (which covers a bare `"\n"`
/// and `"\r\n"`) is the sentinel: the connection closes and no field of the
/// status record changes.
pub proof fn lemma_sentinel_line(st: InputModel, line: Seq<char>)
    requires
        line.len() < 3,
    ensures
        spec_parse(line) == CommandModel::Disconnect,
        spec_apply(st, spec_parse(line)) == st,
{
}

/// Law: two sync commands racing from two connections are serialized by the
/// store's lock, so whichever order they acquire it in, the flag ends up
/// exactly the value the later writer set — one of the two written values,
/// never a torn mix — and the other fields are untouched either way.
pub proof fn lemma_sync_race(st: InputModel, first: bool, second: bool)
    ensures
        spec_apply(
            spec_apply(st, CommandModel::SetSync(first)),
            CommandModel::SetSync(second),
        ) == (InputModel { sync: second, ..st }),
        spec_apply(
            spec_apply(st, CommandModel::SetSync(second)),
            CommandModel::SetSync(first),
        ) == (InputModel { sync: first, ..st }),
{
}

} // verus!
