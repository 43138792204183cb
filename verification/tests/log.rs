use x86_kernel::console::{VgaBuffer, Writer, WIDTH};
use x86_kernel::log::{_log, set_level, LogLevel, Logger};

fn line(w: &Writer, row: usize) -> String {
    let mut s = String::new();
    for i in row * WIDTH..(row + 1) * WIDTH {
        let c = w.screen().char_at(i).char;
        if c != 0 {
            s.push(c as char);
        }
    }
    s
}

#[test]
fn log_line_format() {
    let logger = Logger::new();
    let mut w = Writer::new(VgaBuffer::new());
    _log(&logger, &mut w, LogLevel::Info, "Hello from Rust kernel!");
    assert_eq!(line(&w, 0), "[    0.000] Hello from Rust kernel!");
    assert_eq!(w.get_position(), WIDTH);
}

#[test]
fn level_filter() {
    let mut logger = Logger::new();
    let mut w = Writer::new(VgaBuffer::new());
    set_level(&mut logger, LogLevel::Warning);
    _log(&logger, &mut w, LogLevel::Info, "dropped");
    _log(&logger, &mut w, LogLevel::Debug, "dropped");
    assert_eq!(w.get_position(), 0);
    _log(&logger, &mut w, LogLevel::Warning, "kept");
    _log(&logger, &mut w, LogLevel::Error, "also kept");
    assert_eq!(line(&w, 0), "[    0.000] kept");
    assert_eq!(line(&w, 1), "[    0.000] also kept");
    assert_eq!(w.get_position(), 2 * WIDTH);
}

#[test]
fn level_ranks() {
    assert_eq!(LogLevel::Debug.rank(), 0);
    assert_eq!(LogLevel::Info.rank(), 1);
    assert_eq!(LogLevel::Warning.rank(), 2);
    assert_eq!(LogLevel::Error.rank(), 3);
}

#[test]
fn levels_are_ordered_by_severity() {
    assert!(LogLevel::Debug < LogLevel::Info);
    assert!(LogLevel::Info < LogLevel::Warning);
    assert!(LogLevel::Warning < LogLevel::Error);
}
