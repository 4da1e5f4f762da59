use jobshell::line::{shell_read_line, strip_line_end, LineRead, LineReply, PROMPT};

fn read(text: &str) -> LineRead {
    LineRead::Read { size: text.len(), text: text.to_string() }
}

fn line(text: &str) -> LineReply {
    LineReply { line: Some(text.to_string()), diagnostic: None }
}

#[test]
fn prompt_has_no_line_break() {
    assert_eq!(PROMPT, "> ");
}

#[test]
fn end_of_input_gives_no_line_and_no_diagnostic() {
    assert_eq!(
        shell_read_line(LineRead::Read { size: 0, text: String::new() }),
        LineReply { line: None, diagnostic: None }
    );
}

#[test]
fn zero_bytes_read_is_the_end_whatever_the_buffer_holds() {
    assert_eq!(
        shell_read_line(LineRead::Read { size: 0, text: "stale".to_string() }),
        LineReply { line: None, diagnostic: None }
    );
}

#[test]
fn empty_text_is_the_end_whatever_the_size() {
    assert_eq!(
        shell_read_line(LineRead::Read { size: 3, text: String::new() }),
        LineReply { line: None, diagnostic: None }
    );
}

#[test]
fn line_break_is_stripped() {
    assert_eq!(shell_read_line(read("ls -la\n")), line("ls -la"));
}

#[test]
fn carriage_return_is_stripped_too() {
    assert_eq!(shell_read_line(read("ls\r\n")), line("ls"));
}

#[test]
fn last_line_without_line_break_is_kept() {
    assert_eq!(shell_read_line(read("exit")), line("exit"));
}

#[test]
fn bare_line_break_is_an_empty_line() {
    assert_eq!(shell_read_line(read("\n")), line(""));
}

#[test]
fn spaces_before_the_line_break_stay() {
    assert_eq!(shell_read_line(read("ls \n")), line("ls "));
    assert_eq!(shell_read_line(read(" \t\n")), line(" \t"));
}

#[test]
fn line_breaks_inside_the_line_stay() {
    assert_eq!(shell_read_line(read("a\nb\n")), line("a\nb"));
}

#[test]
fn failed_read_gives_no_line_and_its_description() {
    assert_eq!(
        shell_read_line(LineRead::Failed { description: "stream did not contain valid UTF-8".to_string() }),
        LineReply {
            line: None,
            diagnostic: Some("stream did not contain valid UTF-8".to_string()),
        }
    );
}

#[test]
fn strip_line_end_takes_every_trailing_line_break() {
    assert_eq!(strip_line_end("a\n\n"), "a");
    assert_eq!(strip_line_end("a\r\r\n\r"), "a");
    assert_eq!(strip_line_end("\r\n"), "");
    assert_eq!(strip_line_end(""), "");
}

#[test]
fn strip_line_end_leaves_other_text_alone() {
    assert_eq!(strip_line_end("日本語\n"), "日本語");
    assert_eq!(strip_line_end("\nabc"), "\nabc");
    assert_eq!(strip_line_end("a b  "), "a b  ");
}
