//! AGI command names and the command line grammar.
use vstd::prelude::*;
use crate::text::{push_char, str_has_char};

verus! {

// standard AGI command names
pub const ANSWER: &'static str = "ANSWER";
pub const HANGUP: &'static str = "HANGUP";
pub const STREAM_FILE: &'static str = "STREAM FILE";
pub const GET_DATA: &'static str = "GET DATA";
pub const SAY_DIGITS: &'static str = "SAY DIGITS";
pub const SAY_NUMBER: &'static str = "SAY NUMBER";
pub const SET_VARIABLE: &'static str = "SET VARIABLE";
pub const GET_VARIABLE: &'static str = "GET VARIABLE";
pub const EXEC: &'static str = "EXEC";
pub const WAIT_FOR_DIGIT: &'static str = "WAIT FOR DIGIT";
pub const CHANNEL_STATUS: &'static str = "CHANNEL STATUS";
pub const VERBOSE: &'static str = "VERBOSE";
pub const SET_CALLERID: &'static str = "SET CALLERID";
pub const DATABASE_GET: &'static str = "DATABASE GET";
pub const DATABASE_PUT: &'static str = "DATABASE PUT";
pub const DATABASE_DEL: &'static str = "DATABASE DEL";
pub const CONTROL_STREAM_FILE: &'static str = "CONTROL STREAM FILE";
pub const DATABASE_DELTREE: &'static str = "DATABASE DELTREE";
pub const GET_FULL_VARIABLE: &'static str = "GET FULL VARIABLE";
pub const GET_OPTION: &'static str = "GET OPTION";
pub const GOSUB: &'static str = "GOSUB";
pub const NOOP: &'static str = "NOOP";
pub const RECEIVE_CHAR: &'static str = "RECEIVE CHAR";
pub const RECEIVE_TEXT: &'static str = "RECEIVE TEXT";
pub const RECORD_FILE: &'static str = "RECORD FILE";
pub const SAY_ALPHA: &'static str = "SAY ALPHA";
pub const SAY_DATE: &'static str = "SAY DATE";
pub const SAY_DATETIME: &'static str = "SAY DATETIME";
pub const SAY_PHONETIC: &'static str = "SAY PHONETIC";
pub const SAY_TIME: &'static str = "SAY TIME";
pub const SEND_IMAGE: &'static str = "SEND IMAGE";
pub const SEND_TEXT: &'static str = "SEND TEXT";
pub const SET_AUTOHANGUP: &'static str = "SET AUTOHANGUP";
pub const SET_CONTEXT: &'static str = "SET CONTEXT";
pub const SET_EXTENSION: &'static str = "SET EXTENSION";
pub const SET_MUSIC: &'static str = "SET MUSIC";
pub const SET_PRIORITY: &'static str = "SET PRIORITY";
pub const SPEECH_ACTIVATE_GRAMMAR: &'static str = "SPEECH ACTIVATE GRAMMAR";
pub const SPEECH_CREATE: &'static str = "SPEECH CREATE";
pub const SPEECH_DEACTIVATE_GRAMMAR: &'static str = "SPEECH DEACTIVATE GRAMMAR";
pub const SPEECH_DESTROY: &'static str = "SPEECH DESTROY";
pub const SPEECH_LOAD_GRAMMAR: &'static str = "SPEECH LOAD GRAMMAR";
pub const SPEECH_RECOGNIZE: &'static str = "SPEECH RECOGNIZE";
pub const SPEECH_SET: &'static str = "SPEECH SET";
pub const SPEECH_UNLOAD_GRAMMAR: &'static str = "SPEECH UNLOAD GRAMMAR";
pub const TDD_MODE: &'static str = "TDD MODE";
pub const ASYNCAGI_BREAK: &'static str = "ASYNCAGI BREAK";

/// An argument must be quoted when it holds a space or a double quote.
pub open spec fn needs_quotes(a: Seq<char>) -> bool {
    a.contains(' ') || a.contains('"')
}

/// Each double quote preceded by a backslash.
pub open spec fn escape_quotes(a: Seq<char>) -> Seq<char>
    decreases a.len(),
{
    if a.len() == 0 {
        Seq::empty()
    } else {
        let r = escape_quotes(a.drop_last());
        if a.last() == '"' {
            r + seq!['\\', '"']
        } else {
            r.push(a.last())
        }
    }
}

/// An argument as it stands on the command line.
pub open spec fn quote_arg(a: Seq<char>) -> Seq<char> {
    if needs_quotes(a) {
        seq!['"'] + escape_quotes(a) + seq!['"']
    } else {
        a
    }
}

/// The arguments, each preceded by a space.
pub open spec fn args_text(args: Seq<Seq<char>>) -> Seq<char>
    decreases args.len(),
{
    if args.len() == 0 {
        Seq::empty()
    } else {
        args_text(args.drop_last()) + seq![' '] + quote_arg(args.last())
    }
}

/// A complete command line: the name, the arguments, and a line feed.
pub open spec fn command_text(name: Seq<char>, args: Seq<Seq<char>>) -> Seq<char> {
    name + args_text(args) + seq!['\n']
}

/// The views of a list of string slices.
pub open spec fn strs_view(args: Seq<&str>) -> Seq<Seq<char>> {
    args.map_values(|a: &str| a@)
}

/// Appends `quote_arg(a)`.
fn push_arg(cmd: &mut String, a: &str)
    ensures
        final(cmd)@ == old(cmd)@ + quote_arg(a@),
{
    if str_has_char(a, ' ') || str_has_char(a, '"') {
        push_char(cmd, '"');
        let ghost base = cmd@;
        let n = a.unicode_len();
        let mut i: usize = 0;
        while i < n
            invariant
                n == a@.len(),
                0 <= i <= n,
                cmd@ == base + escape_quotes(a@.subrange(0, i as int)),
            decreases n - i,
        {
            let ch = a.get_char(i);
            assert(a@.subrange(0, i + 1).drop_last() =~= a@.subrange(0, i as int));
            if ch == '"' {
                push_char(cmd, '\\');
            }
            push_char(cmd, ch);
            assert(cmd@ =~= base + escape_quotes(a@.subrange(0, i + 1)));
            i = i + 1;
        }
        assert(a@.subrange(0, n as int) =~= a@);
        push_char(cmd, '"');
        assert(cmd@ =~= old(cmd)@ + quote_arg(a@));
    } else {
        vstd::string::StringExecFns::append(cmd, a);
    }
}

/// format an AGI command string with proper quoting
///
/// arguments containing spaces or double quotes are wrapped in double quotes,
/// with embedded double quotes escaped as `\"`
pub fn format_command(name: &str, args: &[&str]) -> (r: String)
    ensures
        r@ == command_text(name@, strs_view(args@)),
{
    let mut cmd = name.to_owned();
    let ghost av = strs_view(args@);
    let mut i: usize = 0;
    while i < args.len()
        invariant
            av == strs_view(args@),
            0 <= i <= args@.len(),
            cmd@ == name@ + args_text(av.subrange(0, i as int)),
        decreases args@.len() - i,
    {
        assert(av.subrange(0, i + 1).drop_last() =~= av.subrange(0, i as int));
        push_char(&mut cmd, ' ');
        push_arg(&mut cmd, args[i]);
        assert(cmd@ =~= name@ + args_text(av.subrange(0, i + 1)));
        i = i + 1;
    }
    assert(av.subrange(0, args@.len() as int) =~= av);
    push_char(&mut cmd, '\n');
    cmd
}

} // verus!
