//! The command line of each AGI command, built from its typed arguments.
use vstd::prelude::*;
use crate::text::{u64_to_string, u32_to_string, i64_to_string, dec, dec_int, concat_str};
use crate::agi::command::{format_command, command_text, strs_view, ANSWER, ASYNCAGI_BREAK, CHANNEL_STATUS, CONTROL_STREAM_FILE, DATABASE_DEL, DATABASE_DELTREE, DATABASE_GET, DATABASE_PUT, EXEC, GET_DATA, GET_FULL_VARIABLE, GET_OPTION, GET_VARIABLE, GOSUB, HANGUP, NOOP, RECEIVE_CHAR, RECEIVE_TEXT, RECORD_FILE, SAY_ALPHA, SAY_DATE, SAY_DATETIME, SAY_DIGITS, SAY_NUMBER, SAY_PHONETIC, SAY_TIME, SEND_IMAGE, SEND_TEXT, SET_AUTOHANGUP, SET_CALLERID, SET_CONTEXT, SET_EXTENSION, SET_MUSIC, SET_PRIORITY, SET_VARIABLE, SPEECH_ACTIVATE_GRAMMAR, SPEECH_CREATE, SPEECH_DEACTIVATE_GRAMMAR, SPEECH_DESTROY, SPEECH_LOAD_GRAMMAR, SPEECH_RECOGNIZE, SPEECH_SET, SPEECH_UNLOAD_GRAMMAR, STREAM_FILE, TDD_MODE, VERBOSE, WAIT_FOR_DIGIT};

verus! {

/// The `answer` command.
pub fn answer() -> (r: String)
    ensures
        r@ == command_text(ANSWER@, Seq::<Seq<char>>::empty()),
{
    let list: [&str; 0] = [];
    assert(strs_view(list@) =~= Seq::<Seq<char>>::empty());
    format_command(ANSWER, list.as_slice())
}

/// The `stream_file` command.
pub fn stream_file(filename: &str, escape_digits: &str) -> (r: String)
    ensures
        r@ == command_text(STREAM_FILE@, seq![filename@, escape_digits@]),
{
    let list: [&str; 2] = [filename, escape_digits];
    assert(strs_view(list@) =~= seq![filename@, escape_digits@]);
    format_command(STREAM_FILE, list.as_slice())
}

/// The `say_digits` command.
pub fn say_digits(digits: &str, escape_digits: &str) -> (r: String)
    ensures
        r@ == command_text(SAY_DIGITS@, seq![digits@, escape_digits@]),
{
    let list: [&str; 2] = [digits, escape_digits];
    assert(strs_view(list@) =~= seq![digits@, escape_digits@]);
    format_command(SAY_DIGITS, list.as_slice())
}

/// The `set_variable` command.
pub fn set_variable(name: &str, value: &str) -> (r: String)
    ensures
        r@ == command_text(SET_VARIABLE@, seq![name@, value@]),
{
    let list: [&str; 2] = [name, value];
    assert(strs_view(list@) =~= seq![name@, value@]);
    format_command(SET_VARIABLE, list.as_slice())
}

/// The `get_variable` command.
pub fn get_variable(name: &str) -> (r: String)
    ensures
        r@ == command_text(GET_VARIABLE@, seq![name@]),
{
    let list: [&str; 1] = [name];
    assert(strs_view(list@) =~= seq![name@]);
    format_command(GET_VARIABLE, list.as_slice())
}

/// The `exec` command.
pub fn exec(application: &str, args: &str) -> (r: String)
    ensures
        r@ == command_text(EXEC@, seq![application@, args@]),
{
    let list: [&str; 2] = [application, args];
    assert(strs_view(list@) =~= seq![application@, args@]);
    format_command(EXEC, list.as_slice())
}

/// The `set_callerid` command.
pub fn set_callerid(callerid: &str) -> (r: String)
    ensures
        r@ == command_text(SET_CALLERID@, seq![callerid@]),
{
    let list: [&str; 1] = [callerid];
    assert(strs_view(list@) =~= seq![callerid@]);
    format_command(SET_CALLERID, list.as_slice())
}

/// The `database_get` command.
pub fn database_get(family: &str, key: &str) -> (r: String)
    ensures
        r@ == command_text(DATABASE_GET@, seq![family@, key@]),
{
    let list: [&str; 2] = [family, key];
    assert(strs_view(list@) =~= seq![family@, key@]);
    format_command(DATABASE_GET, list.as_slice())
}

/// The `database_put` command.
pub fn database_put(family: &str, key: &str, value: &str) -> (r: String)
    ensures
        r@ == command_text(DATABASE_PUT@, seq![family@, key@, value@]),
{
    let list: [&str; 3] = [family, key, value];
    assert(strs_view(list@) =~= seq![family@, key@, value@]);
    format_command(DATABASE_PUT, list.as_slice())
}

/// The `database_del` command.
pub fn database_del(family: &str, key: &str) -> (r: String)
    ensures
        r@ == command_text(DATABASE_DEL@, seq![family@, key@]),
{
    let list: [&str; 2] = [family, key];
    assert(strs_view(list@) =~= seq![family@, key@]);
    format_command(DATABASE_DEL, list.as_slice())
}

/// The `noop` command.
pub fn noop() -> (r: String)
    ensures
        r@ == command_text(NOOP@, Seq::<Seq<char>>::empty()),
{
    let list: [&str; 0] = [];
    assert(strs_view(list@) =~= Seq::<Seq<char>>::empty());
    format_command(NOOP, list.as_slice())
}

/// The `say_alpha` command.
pub fn say_alpha(text: &str, escape_digits: &str) -> (r: String)
    ensures
        r@ == command_text(SAY_ALPHA@, seq![text@, escape_digits@]),
{
    let list: [&str; 2] = [text, escape_digits];
    assert(strs_view(list@) =~= seq![text@, escape_digits@]);
    format_command(SAY_ALPHA, list.as_slice())
}

/// The `say_phonetic` command.
pub fn say_phonetic(text: &str, escape_digits: &str) -> (r: String)
    ensures
        r@ == command_text(SAY_PHONETIC@, seq![text@, escape_digits@]),
{
    let list: [&str; 2] = [text, escape_digits];
    assert(strs_view(list@) =~= seq![text@, escape_digits@]);
    format_command(SAY_PHONETIC, list.as_slice())
}

/// The `send_image` command.
pub fn send_image(image: &str) -> (r: String)
    ensures
        r@ == command_text(SEND_IMAGE@, seq![image@]),
{
    let list: [&str; 1] = [image];
    assert(strs_view(list@) =~= seq![image@]);
    format_command(SEND_IMAGE, list.as_slice())
}

/// The `send_text` command.
pub fn send_text(text: &str) -> (r: String)
    ensures
        r@ == command_text(SEND_TEXT@, seq![text@]),
{
    let list: [&str; 1] = [text];
    assert(strs_view(list@) =~= seq![text@]);
    format_command(SEND_TEXT, list.as_slice())
}

/// The `set_context` command.
pub fn set_context(context: &str) -> (r: String)
    ensures
        r@ == command_text(SET_CONTEXT@, seq![context@]),
{
    let list: [&str; 1] = [context];
    assert(strs_view(list@) =~= seq![context@]);
    format_command(SET_CONTEXT, list.as_slice())
}

/// The `set_extension` command.
pub fn set_extension(extension: &str) -> (r: String)
    ensures
        r@ == command_text(SET_EXTENSION@, seq![extension@]),
{
    let list: [&str; 1] = [extension];
    assert(strs_view(list@) =~= seq![extension@]);
    format_command(SET_EXTENSION, list.as_slice())
}

/// The `set_priority` command.
pub fn set_priority(priority: &str) -> (r: String)
    ensures
        r@ == command_text(SET_PRIORITY@, seq![priority@]),
{
    let list: [&str; 1] = [priority];
    assert(strs_view(list@) =~= seq![priority@]);
    format_command(SET_PRIORITY, list.as_slice())
}

/// The `speech_create` command.
pub fn speech_create(engine: &str) -> (r: String)
    ensures
        r@ == command_text(SPEECH_CREATE@, seq![engine@]),
{
    let list: [&str; 1] = [engine];
    assert(strs_view(list@) =~= seq![engine@]);
    format_command(SPEECH_CREATE, list.as_slice())
}

/// The `speech_destroy` command.
pub fn speech_destroy() -> (r: String)
    ensures
        r@ == command_text(SPEECH_DESTROY@, Seq::<Seq<char>>::empty()),
{
    let list: [&str; 0] = [];
    assert(strs_view(list@) =~= Seq::<Seq<char>>::empty());
    format_command(SPEECH_DESTROY, list.as_slice())
}

/// The `speech_activate_grammar` command.
pub fn speech_activate_grammar(grammar_name: &str) -> (r: String)
    ensures
        r@ == command_text(SPEECH_ACTIVATE_GRAMMAR@, seq![grammar_name@]),
{
    let list: [&str; 1] = [grammar_name];
    assert(strs_view(list@) =~= seq![grammar_name@]);
    format_command(SPEECH_ACTIVATE_GRAMMAR, list.as_slice())
}

/// The `speech_deactivate_grammar` command.
pub fn speech_deactivate_grammar(grammar_name: &str) -> (r: String)
    ensures
        r@ == command_text(SPEECH_DEACTIVATE_GRAMMAR@, seq![grammar_name@]),
{
    let list: [&str; 1] = [grammar_name];
    assert(strs_view(list@) =~= seq![grammar_name@]);
    format_command(SPEECH_DEACTIVATE_GRAMMAR, list.as_slice())
}

/// The `speech_load_grammar` command.
pub fn speech_load_grammar(grammar_name: &str, path: &str) -> (r: String)
    ensures
        r@ == command_text(SPEECH_LOAD_GRAMMAR@, seq![grammar_name@, path@]),
{
    let list: [&str; 2] = [grammar_name, path];
    assert(strs_view(list@) =~= seq![grammar_name@, path@]);
    format_command(SPEECH_LOAD_GRAMMAR, list.as_slice())
}

/// The `speech_unload_grammar` command.
pub fn speech_unload_grammar(grammar_name: &str) -> (r: String)
    ensures
        r@ == command_text(SPEECH_UNLOAD_GRAMMAR@, seq![grammar_name@]),
{
    let list: [&str; 1] = [grammar_name];
    assert(strs_view(list@) =~= seq![grammar_name@]);
    format_command(SPEECH_UNLOAD_GRAMMAR, list.as_slice())
}

/// The `speech_set` command.
pub fn speech_set(name: &str, value: &str) -> (r: String)
    ensures
        r@ == command_text(SPEECH_SET@, seq![name@, value@]),
{
    let list: [&str; 2] = [name, value];
    assert(strs_view(list@) =~= seq![name@, value@]);
    format_command(SPEECH_SET, list.as_slice())
}

/// The `tdd_mode` command.
pub fn tdd_mode(mode: &str) -> (r: String)
    ensures
        r@ == command_text(TDD_MODE@, seq![mode@]),
{
    let list: [&str; 1] = [mode];
    assert(strs_view(list@) =~= seq![mode@]);
    format_command(TDD_MODE, list.as_slice())
}

/// The `asyncagi_break` command.
pub fn asyncagi_break() -> (r: String)
    ensures
        r@ == command_text(ASYNCAGI_BREAK@, Seq::<Seq<char>>::empty()),
{
    let list: [&str; 0] = [];
    assert(strs_view(list@) =~= Seq::<Seq<char>>::empty());
    format_command(ASYNCAGI_BREAK, list.as_slice())
}

/// The `get_data` command.
pub fn get_data(filename: &str, timeout_ms: u64, max_digits: u32) -> (r: String)
    ensures
        r@ == command_text(GET_DATA@, seq![filename@, dec(timeout_ms as nat), dec(max_digits as nat)]),
{
    let timeout_ms_text = u64_to_string(timeout_ms);
    let max_digits_text = u32_to_string(max_digits);
    let list: [&str; 3] = [filename, timeout_ms_text.as_str(), max_digits_text.as_str()];
    assert(strs_view(list@) =~= seq![filename@, dec(timeout_ms as nat), dec(max_digits as nat)]);
    format_command(GET_DATA, list.as_slice())
}

/// The `say_number` command.
pub fn say_number(number: i64, escape_digits: &str) -> (r: String)
    ensures
        r@ == command_text(SAY_NUMBER@, seq![dec_int(number as int), escape_digits@]),
{
    let number_text = i64_to_string(number);
    let list: [&str; 2] = [number_text.as_str(), escape_digits];
    assert(strs_view(list@) =~= seq![dec_int(number as int), escape_digits@]);
    format_command(SAY_NUMBER, list.as_slice())
}

/// The `wait_for_digit` command.
pub fn wait_for_digit(timeout_ms: i64) -> (r: String)
    ensures
        r@ == command_text(WAIT_FOR_DIGIT@, seq![dec_int(timeout_ms as int)]),
{
    let timeout_ms_text = i64_to_string(timeout_ms);
    let list: [&str; 1] = [timeout_ms_text.as_str()];
    assert(strs_view(list@) =~= seq![dec_int(timeout_ms as int)]);
    format_command(WAIT_FOR_DIGIT, list.as_slice())
}

/// The `verbose` command.
pub fn verbose(message: &str, level: u8) -> (r: String)
    ensures
        r@ == command_text(VERBOSE@, seq![message@, dec(level as nat)]),
{
    let level_text = u32_to_string(level as u32);
    let list: [&str; 2] = [message, level_text.as_str()];
    assert(strs_view(list@) =~= seq![message@, dec(level as nat)]);
    format_command(VERBOSE, list.as_slice())
}

/// The `receive_char` command.
pub fn receive_char(timeout_ms: i64) -> (r: String)
    ensures
        r@ == command_text(RECEIVE_CHAR@, seq![dec_int(timeout_ms as int)]),
{
    let timeout_ms_text = i64_to_string(timeout_ms);
    let list: [&str; 1] = [timeout_ms_text.as_str()];
    assert(strs_view(list@) =~= seq![dec_int(timeout_ms as int)]);
    format_command(RECEIVE_CHAR, list.as_slice())
}

/// The `receive_text` command.
pub fn receive_text(timeout_ms: i64) -> (r: String)
    ensures
        r@ == command_text(RECEIVE_TEXT@, seq![dec_int(timeout_ms as int)]),
{
    let timeout_ms_text = i64_to_string(timeout_ms);
    let list: [&str; 1] = [timeout_ms_text.as_str()];
    assert(strs_view(list@) =~= seq![dec_int(timeout_ms as int)]);
    format_command(RECEIVE_TEXT, list.as_slice())
}

/// The `say_date` command.
pub fn say_date(date: i64, escape_digits: &str) -> (r: String)
    ensures
        r@ == command_text(SAY_DATE@, seq![dec_int(date as int), escape_digits@]),
{
    let date_text = i64_to_string(date);
    let list: [&str; 2] = [date_text.as_str(), escape_digits];
    assert(strs_view(list@) =~= seq![dec_int(date as int), escape_digits@]);
    format_command(SAY_DATE, list.as_slice())
}

/// The `say_time` command.
pub fn say_time(time: i64, escape_digits: &str) -> (r: String)
    ensures
        r@ == command_text(SAY_TIME@, seq![dec_int(time as int), escape_digits@]),
{
    let time_text = i64_to_string(time);
    let list: [&str; 2] = [time_text.as_str(), escape_digits];
    assert(strs_view(list@) =~= seq![dec_int(time as int), escape_digits@]);
    format_command(SAY_TIME, list.as_slice())
}

/// The `set_autohangup` command.
pub fn set_autohangup(seconds: u32) -> (r: String)
    ensures
        r@ == command_text(SET_AUTOHANGUP@, seq![dec(seconds as nat)]),
{
    let seconds_text = u32_to_string(seconds);
    let list: [&str; 1] = [seconds_text.as_str()];
    assert(strs_view(list@) =~= seq![dec(seconds as nat)]);
    format_command(SET_AUTOHANGUP, list.as_slice())
}

/// The `hangup` command, optionally naming the channel.
pub fn hangup(channel: Option<&str>) -> (r: String)
    ensures
        r@ == command_text(HANGUP@, match channel { Some(ch) => seq![ch@], None => Seq::empty() }),
{
    match channel {
        Some(ch) => {
            let list: [&str; 1] = [ch];
            assert(strs_view(list@) =~= seq![ch@]);
            format_command(HANGUP, list.as_slice())
        },
        None => {
            let list: [&str; 0] = [];
            assert(strs_view(list@) =~= Seq::<Seq<char>>::empty());
            format_command(HANGUP, list.as_slice())
        },
    }
}

/// The `channel_status` command, optionally naming the channel.
pub fn channel_status(channel: Option<&str>) -> (r: String)
    ensures
        r@ == command_text(CHANNEL_STATUS@, match channel { Some(ch) => seq![ch@], None => Seq::empty() }),
{
    match channel {
        Some(ch) => {
            let list: [&str; 1] = [ch];
            assert(strs_view(list@) =~= seq![ch@]);
            format_command(CHANNEL_STATUS, list.as_slice())
        },
        None => {
            let list: [&str; 0] = [];
            assert(strs_view(list@) =~= Seq::<Seq<char>>::empty());
            format_command(CHANNEL_STATUS, list.as_slice())
        },
    }
}

/// The `database_deltree` command, optionally narrowed to a key.
pub fn database_deltree(family: &str, key: Option<&str>) -> (r: String)
    ensures
        r@ == command_text(DATABASE_DELTREE@, match key { Some(k) => seq![family@, k@], None => seq![family@] }),
{
    match key {
        Some(k) => {
            let list: [&str; 2] = [family, k];
            assert(strs_view(list@) =~= seq![family@, k@]);
            format_command(DATABASE_DELTREE, list.as_slice())
        },
        None => {
            let list: [&str; 1] = [family];
            assert(strs_view(list@) =~= seq![family@]);
            format_command(DATABASE_DELTREE, list.as_slice())
        },
    }
}

/// `opt.unwrap_or(default)` on views.
pub open spec fn or_text(o: Option<&str>, d: Seq<char>) -> Seq<char> {
    match o { Some(s) => s@, None => d }
}

/// The `control_stream_file` command: skip defaults to 3000 ms, absent
/// control keys to empty arguments.
pub fn control_stream_file(
    filename: &str,
    escape_digits: &str,
    skipms: Option<i64>,
    ff_char: Option<&str>,
    rew_char: Option<&str>,
    pause_char: Option<&str>,
) -> (r: String)
    ensures
        r@ == command_text(CONTROL_STREAM_FILE@, seq![
            filename@,
            escape_digits@,
            dec_int(match skipms { Some(v) => v as int, None => 3000 }),
            or_text(ff_char, Seq::empty()),
            or_text(rew_char, Seq::empty()),
            or_text(pause_char, Seq::empty()),
        ]),
{
    let skip_v: i64 = match skipms { Some(v) => v, None => 3000 };
    assert(skip_v as int == match skipms { Some(v) => v as int, None => 3000 });
    let skip = i64_to_string(skip_v);
    let e = "";
    proof {
        reveal_strlit("");
    }
    assert(e@ =~= Seq::<char>::empty());
    let ff = match ff_char { Some(x) => x, None => e };
    let rew = match rew_char { Some(x) => x, None => e };
    let pause = match pause_char { Some(x) => x, None => e };
    let list: [&str; 6] = [filename, escape_digits, skip.as_str(), ff, rew, pause];
    let ghost expected = seq![
        filename@,
        escape_digits@,
        dec_int(match skipms { Some(v) => v as int, None => 3000 }),
        or_text(ff_char, Seq::empty()),
        or_text(rew_char, Seq::empty()),
        or_text(pause_char, Seq::empty()),
    ];
    assert(strs_view(list@) =~= expected);
    format_command(CONTROL_STREAM_FILE, list.as_slice())
}

/// The `get_full_variable` command, optionally naming the channel.
pub fn get_full_variable(expression: &str, channel: Option<&str>) -> (r: String)
    ensures
        r@ == command_text(GET_FULL_VARIABLE@, match channel { Some(ch) => seq![expression@, ch@], None => seq![expression@] }),
{
    match channel {
        Some(ch) => {
            let list: [&str; 2] = [expression, ch];
            assert(strs_view(list@) =~= seq![expression@, ch@]);
            format_command(GET_FULL_VARIABLE, list.as_slice())
        },
        None => {
            let list: [&str; 1] = [expression];
            assert(strs_view(list@) =~= seq![expression@]);
            format_command(GET_FULL_VARIABLE, list.as_slice())
        },
    }
}

/// The `get_option` command, with an optional timeout.
pub fn get_option(filename: &str, escape_digits: &str, timeout_ms: Option<i64>) -> (r: String)
    ensures
        r@ == command_text(GET_OPTION@, match timeout_ms {
            Some(t) => seq![filename@, escape_digits@, dec_int(t as int)],
            None => seq![filename@, escape_digits@],
        }),
{
    match timeout_ms {
        Some(t) => {
            let ts = i64_to_string(t);
            let list: [&str; 3] = [filename, escape_digits, ts.as_str()];
            assert(strs_view(list@) =~= seq![filename@, escape_digits@, dec_int(t as int)]);
            format_command(GET_OPTION, list.as_slice())
        },
        None => {
            let list: [&str; 2] = [filename, escape_digits];
            assert(strs_view(list@) =~= seq![filename@, escape_digits@]);
            format_command(GET_OPTION, list.as_slice())
        },
    }
}

/// The `gosub` command, with optional subroutine arguments.
pub fn gosub(context: &str, extension: &str, priority: &str, args: Option<&str>) -> (r: String)
    ensures
        r@ == command_text(GOSUB@, match args {
            Some(a) => seq![context@, extension@, priority@, a@],
            None => seq![context@, extension@, priority@],
        }),
{
    match args {
        Some(a) => {
            let v: [&str; 4] = [context, extension, priority, a];
            assert(strs_view(v@) =~= seq![context@, extension@, priority@, a@]);
            format_command(GOSUB, v.as_slice())
        },
        None => {
            let v: [&str; 3] = [context, extension, priority];
            assert(strs_view(v@) =~= seq![context@, extension@, priority@]);
            format_command(GOSUB, v.as_slice())
        },
    }
}

/// Arguments of `record_file` after the timeout.
pub open spec fn record_extra(beep: bool, silence: Option<u32>) -> Seq<Seq<char>> {
    (if beep { seq!["beep"@] } else { Seq::empty() })
        + match silence { Some(s) => seq!["s="@ + dec(s as nat)], None => Seq::empty() }
}

/// The `record_file` command: `beep` and `s=<silence>` are appended when asked for.
pub fn record_file(
    filename: &str,
    format: &str,
    escape_digits: &str,
    timeout_ms: i64,
    beep: bool,
    silence: Option<u32>,
) -> (r: String)
    ensures
        r@ == command_text(RECORD_FILE@, seq![filename@, format@, escape_digits@, dec_int(timeout_ms as int)]
            + record_extra(beep, silence)),
{
    let timeout = i64_to_string(timeout_ms);
    let beep_str = "beep";
    let silence_str = match silence {
        Some(s) => concat_str("s=", u32_to_string(s).as_str()),
        None => String::new(),
    };
    let mut list: Vec<&str> = Vec::new();
    list.push(filename);
    list.push(format);
    list.push(escape_digits);
    list.push(timeout.as_str());
    if beep {
        list.push(beep_str);
    }
    if silence.is_some() {
        list.push(silence_str.as_str());
    }
    assert(strs_view(list@) =~= seq![filename@, format@, escape_digits@, dec_int(timeout_ms as int)]
        + record_extra(beep, silence));
    format_command(RECORD_FILE, list.as_slice())
}

/// The arguments of `record_file`: the file name, the format, the escape
/// digits and the timeout, then `beep` exactly when a beep is asked for, then
/// `s=<silence>` exactly when a silence limit is given.
pub proof fn lemma_record_file_args(
    filename: Seq<char>,
    format: Seq<char>,
    escape_digits: Seq<char>,
    timeout: Seq<char>,
    beep: bool,
    silence: Option<u32>,
)
    ensures
        ({
            let args = seq![filename, format, escape_digits, timeout] + record_extra(beep, silence);
            &&& args.len() == 4 + (if beep { 1int } else { 0 }) + (if silence is Some { 1int } else { 0 })
            &&& args.subrange(0, 4) == seq![filename, format, escape_digits, timeout]
            &&& beep ==> args[4] == "beep"@
            &&& (exists|i: int| 4 <= i < args.len() && args[i] == "beep"@) <==> beep
            &&& (silence matches Some(s) ==> args[args.len() - 1] == "s="@ + dec(s as nat))
        }),
{
    let args = seq![filename, format, escape_digits, timeout] + record_extra(beep, silence);
    assert(args.subrange(0, 4) =~= seq![filename, format, escape_digits, timeout]);
    if let Some(s) = silence {
        let t = "s="@ + dec(s as nat);
        assert(args[args.len() - 1] == t);
        assert(t[0] == 's') by {
            reveal_strlit("s=");
        }
        assert("beep"@[0] == 'b') by {
            reveal_strlit("beep");
        }
        assert(t != "beep"@);
    }
    if beep {
        assert(args[4] == "beep"@);
    }
}

/// Arguments of `say_datetime` after the escape digits: the format, then
/// the time zone only when a format is given.
pub open spec fn datetime_extra(format: Option<&str>, timezone: Option<&str>) -> Seq<Seq<char>> {
    match format {
        Some(f) => seq![f@] + match timezone { Some(tz) => seq![tz@], None => Seq::empty() },
        None => Seq::empty(),
    }
}

/// The `say_datetime` command.
pub fn say_datetime(datetime: i64, escape_digits: &str, format: Option<&str>, timezone: Option<&str>) -> (r: String)
    ensures
        r@ == command_text(SAY_DATETIME@, seq![dec_int(datetime as int), escape_digits@] + datetime_extra(format, timezone)),
{
    let dt = i64_to_string(datetime);
    let mut list: Vec<&str> = Vec::new();
    list.push(dt.as_str());
    list.push(escape_digits);
    if let Some(f) = format {
        list.push(f);
        if let Some(tz) = timezone {
            list.push(tz);
        }
    }
    assert(strs_view(list@) =~= seq![dec_int(datetime as int), escape_digits@] + datetime_extra(format, timezone));
    format_command(SAY_DATETIME, list.as_slice())
}

/// The `set_music` command: `on` or `off`, then the optional class.
pub fn set_music(enabled: bool, class: Option<&str>) -> (r: String)
    ensures
        r@ == command_text(SET_MUSIC@, seq![if enabled { "on"@ } else { "off"@ }]
            + match class { Some(c) => seq![c@], None => Seq::empty() }),
{
    let on_off = if enabled { "on" } else { "off" };
    let mut list: Vec<&str> = Vec::new();
    list.push(on_off);
    if let Some(c) = class {
        list.push(c);
    }
    assert(strs_view(list@) =~= seq![if enabled { "on"@ } else { "off"@ }]
        + match class { Some(c) => seq![c@], None => Seq::<Seq<char>>::empty() });
    format_command(SET_MUSIC, list.as_slice())
}

/// The `speech_recognize` command, with an optional offset.
pub fn speech_recognize(prompt: &str, timeout_ms: i64, offset: Option<i64>) -> (r: String)
    ensures
        r@ == command_text(SPEECH_RECOGNIZE@, match offset {
            Some(o) => seq![prompt@, dec_int(timeout_ms as int), dec_int(o as int)],
            None => seq![prompt@, dec_int(timeout_ms as int)],
        }),
{
    let t = i64_to_string(timeout_ms);
    match offset {
        Some(o) => {
            let os = i64_to_string(o);
            let list: [&str; 3] = [prompt, t.as_str(), os.as_str()];
            assert(strs_view(list@) =~= seq![prompt@, dec_int(timeout_ms as int), dec_int(o as int)]);
            format_command(SPEECH_RECOGNIZE, list.as_slice())
        },
        None => {
            let list: [&str; 2] = [prompt, t.as_str()];
            assert(strs_view(list@) =~= seq![prompt@, dec_int(timeout_ms as int)]);
            format_command(SPEECH_RECOGNIZE, list.as_slice())
        },
    }
}

} // verus!
