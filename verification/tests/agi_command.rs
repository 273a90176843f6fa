use asterisk_rs::agi::command::{
    format_command, ANSWER, DATABASE_GET, GOSUB, HANGUP, RECORD_FILE, SAY_ALPHA, SET_CALLERID, SET_MUSIC,
    SPEECH_CREATE, STREAM_FILE, VERBOSE,
};

#[test]
fn command_format_simple_command() {
    assert_eq!(format_command(ANSWER, &[]), "ANSWER\n");
}

#[test]
fn command_format_command_with_args() {
    assert_eq!(
        format_command(STREAM_FILE, &["hello-world", "#"]),
        "STREAM FILE hello-world #\n"
    );
}

#[test]
fn command_format_command_with_spaces_in_arg() {
    assert_eq!(
        format_command(VERBOSE, &["hello world", "1"]),
        "VERBOSE \"hello world\" 1\n"
    );
}

#[test]
fn command_format_command_with_embedded_quotes() {
    assert_eq!(
        format_command(VERBOSE, &["say \"hi\"", "1"]),
        "VERBOSE \"say \\\"hi\\\"\" 1\n"
    );
}

#[test]
fn command_format_hangup_with_optional_channel() {
    assert_eq!(
        format_command(HANGUP, &["SIP/100-00000001"]),
        "HANGUP SIP/100-00000001\n"
    );
}

#[test]
fn format_simple_command() {
    assert_eq!(format_command(ANSWER, &[]), "ANSWER\n");
}

#[test]
fn format_command_with_args() {
    assert_eq!(
        format_command(STREAM_FILE, &["hello-world", "#"]),
        "STREAM FILE hello-world #\n"
    );
}

#[test]
fn format_command_with_spaces_in_arg() {
    assert_eq!(
        format_command(VERBOSE, &["hello world", "1"]),
        "VERBOSE \"hello world\" 1\n"
    );
}

#[test]
fn format_command_with_embedded_quotes() {
    assert_eq!(
        format_command(VERBOSE, &["say \"hi\"", "1"]),
        "VERBOSE \"say \\\"hi\\\"\" 1\n"
    );
}

#[test]
fn format_hangup_with_optional_channel() {
    assert_eq!(
        format_command(HANGUP, &["SIP/100-00000001"]),
        "HANGUP SIP/100-00000001\n"
    );
}

#[test]
fn format_record_file_command() {
    let cmd = format_command(RECORD_FILE, &["myfile", "wav", "#", "5000"]);
    assert_eq!(cmd, "RECORD FILE myfile wav # 5000\n");
}

#[test]
fn format_database_get_command() {
    let cmd = format_command(DATABASE_GET, &["cidname", "12125551234"]);
    assert_eq!(cmd, "DATABASE GET cidname 12125551234\n");
}

#[test]
fn format_gosub_command() {
    let cmd = format_command(GOSUB, &["default", "s", "1"]);
    assert_eq!(cmd, "GOSUB default s 1\n");
}

#[test]
fn format_say_alpha_command() {
    let cmd = format_command(SAY_ALPHA, &["hello", "#"]);
    assert_eq!(cmd, "SAY ALPHA hello #\n");
}

#[test]
fn format_speech_create_command() {
    let cmd = format_command(SPEECH_CREATE, &["lumenvox"]);
    assert_eq!(cmd, "SPEECH CREATE lumenvox\n");
}

#[test]
fn format_set_callerid_command() {
    let cmd = format_command(SET_CALLERID, &["\"John\" <1234>"]);
    assert_eq!(cmd, "SET CALLERID \"\\\"John\\\" <1234>\"\n");
}

#[test]
fn format_set_music_command() {
    let cmd = format_command(SET_MUSIC, &["on", "default"]);
    assert_eq!(cmd, "SET MUSIC on default\n");
}

#[test]
fn empty_argument_leaves_a_gap() {
    assert_eq!(format_command(VERBOSE, &["", "1"]), "VERBOSE  1\n");
}

#[test]
fn backslash_without_space_is_kept_as_is() {
    assert_eq!(format_command(VERBOSE, &["a\\b", "1"]), "VERBOSE a\\b 1\n");
}

#[test]
fn quote_alone_forces_quoting() {
    assert_eq!(format_command(VERBOSE, &["a\"b", "1"]), "VERBOSE \"a\\\"b\" 1\n");
}
