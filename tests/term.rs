use reclog::iomode::{
    after_read_wait, after_write_wait, close_reader, close_writer, read_step, set_reader_timeout,
    write_discards,
    Next, ReadStep, ReaderMode, WriterMode,
};
use reclog::term::AnsiFilter;

struct Collect(AnsiFilter);

impl vte::Perform for Collect {
    fn print(&mut self, c: char) {
        self.0.print(c);
    }

    fn execute(&mut self, b: u8) {
        self.0.execute(b);
    }
}

fn strip(input: &[u8]) -> Vec<u8> {
    let mut parser = vte::Parser::new();
    let mut sink = Collect(AnsiFilter::new());
    parser.advance(&mut sink, input);
    sink.0.take()
}

#[test]
fn ansi_colors_are_stripped() {
    assert_eq!(strip(b"\x1b[31mRED\x1b[0m\n"), b"RED\n".to_vec());
}

#[test]
fn tabs_and_newlines_survive_other_controls_do_not() {
    assert_eq!(strip(b"a\tb\r\n\x07c"), b"a\tb\nc".to_vec());
}

#[test]
fn osc_title_is_dropped() {
    assert_eq!(strip(b"\x1b]0;title\x07text\n"), b"text\n".to_vec());
}

#[test]
fn non_ascii_text_keeps_its_utf8_bytes() {
    let text = "caf\u{e9} \u{20ac} \u{1f600}\n";
    assert_eq!(strip(text.as_bytes()), text.as_bytes().to_vec());
    let mut f = AnsiFilter::new();
    f.print('\u{e9}');
    assert_eq!(f.take(), vec![0xC3, 0xA9]);
}

#[test]
fn filter_take_empties_it() {
    let mut f = AnsiFilter::new();
    f.print('x');
    f.execute(b'\n');
    f.execute(0x1b);
    assert_eq!(f.take(), b"x\n".to_vec());
    assert_eq!(f.take(), Vec::<u8>::new());
}

#[test]
fn reader_modes_move_toward_closed() {
    let mut m = ReaderMode::NoTimeout;
    assert_eq!(read_step(m), ReadStep::Wait(None));
    assert!(set_reader_timeout(&mut m, 10));
    assert_eq!(m, ReaderMode::Timeout(10));
    assert_eq!(read_step(m), ReadStep::Wait(Some(10)));
    assert!(close_reader(&mut m));
    assert_eq!(read_step(m), ReadStep::Eof);
    assert!(!close_reader(&mut m));
    assert!(!set_reader_timeout(&mut m, 5));
    assert_eq!(m, ReaderMode::Closed);
}

#[test]
fn writer_closes_once() {
    let mut m = WriterMode::Open;
    assert!(!write_discards(m));
    assert!(close_writer(&mut m));
    assert!(write_discards(m));
    assert!(!close_writer(&mut m));
    assert_eq!(m, WriterMode::Closed);
}

#[test]
fn wait_outcomes() {
    let r = after_read_wait(true, false, false);
    assert_eq!((r.drain, r.next), (false, Next::Eof));
    let r = after_read_wait(false, false, false);
    assert_eq!(r.next, Next::Retry);
    let r = after_read_wait(true, true, false);
    assert_eq!((r.drain, r.next), (true, Next::Retry));
    let r = after_read_wait(false, true, true);
    assert_eq!((r.drain, r.next), (true, Next::Transfer));
    let r = after_write_wait(true, false);
    assert_eq!((r.drain, r.next), (true, Next::Retry));
    let r = after_write_wait(false, true);
    assert_eq!(r.next, Next::Transfer);
}
