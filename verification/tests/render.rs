use clogger::{format_record, ConsoleSink, Level};

#[test]
fn error_record_renders_as_red_error_line() {
    let line = format_record(Level::Error, "disk full");
    assert_eq!(line, "\u{1b}[31merror\u{1b}[0m: disk full");
}

#[test]
fn error_line_stripped_of_color_codes_reads_plainly() {
    let line = format_record(Level::Error, "disk full");
    let stripped = line.replace("\u{1b}[31m", "").replace("\u{1b}[0m", "");
    assert_eq!(stripped, "error: disk full");
}

#[test]
fn warn_record_renders_as_purple_warn_line() {
    let line = format_record(Level::Warn, "low space");
    assert_eq!(line, "\u{1b}[35mwarn\u{1b}[0m: low space");
}

#[test]
fn info_record_renders_as_yellow_info_line() {
    let line = format_record(Level::Info, "started");
    assert_eq!(line, "\u{1b}[33minfo\u{1b}[0m: started");
}

#[test]
fn debug_record_renders_as_cyan_debug_line() {
    let line = format_record(Level::Debug, "cache miss");
    assert_eq!(line, "\u{1b}[36mdebug\u{1b}[0m: cache miss");
}

#[test]
fn trace_record_renders_as_blue_trace_line() {
    let line = format_record(Level::Trace, "entering loop");
    assert_eq!(line, "\u{1b}[34mtrace\u{1b}[0m: entering loop");
}

#[test]
fn emit_renders_like_format_record() {
    let sink = ConsoleSink::new();
    let line = sink.emit(Level::Info, "ready");
    assert_eq!(line, format_record(Level::Info, "ready"));
    assert_eq!(line, "\u{1b}[33minfo\u{1b}[0m: ready");
}

#[test]
fn empty_message_still_gets_a_prefix() {
    let line = format_record(Level::Error, "");
    assert_eq!(line, "\u{1b}[31merror\u{1b}[0m: ");
}
