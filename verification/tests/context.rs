use termseq::context::Context;
use termseq::error::Error;

/// A small in-memory database with the six capabilities the context uses,
/// holding xterm-style templates.
fn full_db() -> terminfo::Database {
    let mut b = terminfo::Database::new();
    b.name("verustest");
    b.raw("smcup", "\x1b[?1049h");
    b.raw("rmcup", "\x1b[?1049l");
    b.raw("cup", "\x1b[%i%p1%d;%p2%dH");
    b.raw("setaf", "\x1b[3%p1%dm");
    b.raw("sgr0", "\x1b(B\x1b[m");
    b.raw("csr", "\x1b[%i%p1%d;%p2%dr");
    b.build().unwrap()
}

/// A database that names a terminal but holds no capabilities.
fn empty_db() -> terminfo::Database {
    let mut b = terminfo::Database::new();
    b.name("verustest-empty");
    b.build().unwrap()
}

#[test]
fn new_starts_empty() {
    let db = full_db();
    let ctx = Context::new(&db);
    assert!(ctx.out.is_empty());
    assert!(ctx.buf.is_empty());
}

#[test]
fn smcup_writes_template() {
    let db = full_db();
    let mut ctx = Context::new(&db);
    assert_eq!(ctx.smcup(), Ok(8));
    assert_eq!(ctx.out, b"\x1b[?1049h".to_vec());
}

#[test]
fn rmcup_writes_template() {
    let db = full_db();
    let mut ctx = Context::new(&db);
    assert_eq!(ctx.rmcup(), Ok(8));
    assert_eq!(ctx.out, b"\x1b[?1049l".to_vec());
}

#[test]
fn cup_expands_documented_sequence() {
    let db = full_db();
    let mut ctx = Context::new(&db);
    // %i makes the parameters one-based: row 2, column 3 address as 3;4.
    assert_eq!(ctx.cup(2, 3), Ok(6));
    assert_eq!(ctx.out, b"\x1b[3;4H".to_vec());
}

#[test]
fn cup_home_position() {
    let db = full_db();
    let mut ctx = Context::new(&db);
    assert_eq!(ctx.cup(0, 0), Ok(6));
    assert_eq!(ctx.out, b"\x1b[1;1H".to_vec());
}

#[test]
fn setaf_expands_color_index() {
    let db = full_db();
    let mut ctx = Context::new(&db);
    assert_eq!(ctx.setaf(5), Ok(5));
    assert_eq!(ctx.out, b"\x1b[35m".to_vec());
}

#[test]
fn sgr0_writes_template() {
    let db = full_db();
    let mut ctx = Context::new(&db);
    assert_eq!(ctx.sgr0(), Ok(6));
    assert_eq!(ctx.out, b"\x1b(B\x1b[m".to_vec());
}

#[test]
fn csr_expands_region() {
    let db = full_db();
    let mut ctx = Context::new(&db);
    assert_eq!(ctx.csr(0, 23), Ok(7));
    assert_eq!(ctx.out, b"\x1b[1;24r".to_vec());
}

#[test]
fn missing_capability_is_reported() {
    let db = empty_db();
    let mut ctx = Context::new(&db);
    assert_eq!(ctx.smcup(), Err(Error::CapabilityMissing));
    assert_eq!(ctx.cup(1, 2), Err(Error::CapabilityMissing));
    assert!(ctx.out.is_empty());
}

#[test]
fn number_valued_capability_counts_as_missing() {
    let mut b = terminfo::Database::new();
    b.name("verustest-number");
    b.raw("smcup", 5i32);
    let db = b.build().unwrap();
    let mut ctx = Context::new(&db);
    assert_eq!(ctx.smcup(), Err(Error::CapabilityMissing));
    assert!(ctx.out.is_empty());
}

#[test]
fn malformed_template_fails_expansion() {
    let mut b = terminfo::Database::new();
    b.name("verustest-bad");
    // `%d` prints from an empty stack: expansion must fail.
    b.raw("sgr0", "%d");
    let db = b.build().unwrap();
    let mut ctx = Context::new(&db);
    assert_eq!(ctx.sgr0(), Err(Error::Expansion));
    assert!(ctx.out.is_empty());
}

#[test]
fn unrecognized_escape_is_rejected() {
    let mut b = terminfo::Database::new();
    b.name("verustest-escape");
    // `%z` is no escape of the expansion grammar: the template is rejected
    // before expansion rather than handed to the engine.
    b.raw("smcup", "abc%zdef");
    let db = b.build().unwrap();
    let mut ctx = Context::new(&db);
    assert_eq!(ctx.smcup(), Err(Error::Expansion));
    assert!(ctx.out.is_empty());
}

#[test]
fn arithmetic_template_is_rejected() {
    let mut b = terminfo::Database::new();
    b.name("verustest-arith");
    // Templates using the arithmetic operators fall outside the accepted
    // subset and are reported as expansion failures.
    b.raw("setaf", "\x1b[%p1%{2}%+%dm");
    let db = b.build().unwrap();
    let mut ctx = Context::new(&db);
    assert_eq!(ctx.setaf(1), Err(Error::Expansion));
    assert!(ctx.out.is_empty());
}

#[test]
fn scratch_buffer_untouched_by_capability_ops() {
    let db = full_db();
    let mut ctx = Context::new(&db);
    ctx.write_ascii(7).unwrap();
    let scratch = ctx.buf.clone();
    ctx.smcup().unwrap();
    ctx.cup(1, 1).unwrap();
    ctx.write(b"xy");
    assert_eq!(ctx.sgr0(), Ok(6));
    assert_eq!(ctx.buf, scratch);
}

#[test]
fn write_ascii_scratch_holds_appended_run() {
    let db = full_db();
    let mut ctx = Context::new(&db);
    ctx.smcup().unwrap();
    let before = ctx.out.len();
    assert_eq!(ctx.write_ascii(12), Ok(12));
    assert_eq!(ctx.buf.len(), 12);
    assert_eq!(ctx.buf[..], ctx.out[before..]);
    assert_eq!(ctx.write_ascii(5), Ok(5));
    assert_eq!(ctx.buf.len(), 5);
}

#[test]
fn write_ascii_writes_exact_count_in_range() {
    let db = full_db();
    let mut ctx = Context::new(&db);
    assert_eq!(ctx.write_ascii(64), Ok(64));
    assert_eq!(ctx.out.len(), 64);
    for &byte in ctx.out.iter() {
        assert!((32..=126).contains(&byte));
    }
}

#[test]
fn write_ascii_zero_writes_nothing() {
    let db = full_db();
    let mut ctx = Context::new(&db);
    assert_eq!(ctx.write_ascii(0), Ok(0));
    assert!(ctx.out.is_empty());
}

#[test]
fn counts_match_bytes_written() {
    let db = full_db();
    let mut ctx = Context::new(&db);
    let a = ctx.smcup().unwrap();
    let b = ctx.cup(4, 9).unwrap();
    let c = ctx.write_ascii(10).unwrap();
    let d = ctx.sgr0().unwrap();
    assert_eq!(ctx.out.len(), a + b + c + d);
    assert_eq!(&ctx.out[..a], b"\x1b[?1049h");
    assert_eq!(&ctx.out[a..a + b], b"\x1b[5;10H");
}

#[test]
fn failed_operation_leaves_output_unchanged() {
    let db = full_db();
    let mut ctx = Context::new(&db);
    ctx.smcup().unwrap();
    let before = ctx.out.clone();
    let mut b = terminfo::Database::new();
    b.name("verustest-empty2");
    let empty = b.build().unwrap();
    let mut ctx2 = Context::new(&empty);
    assert_eq!(ctx2.setaf(1), Err(Error::CapabilityMissing));
    assert!(ctx2.out.is_empty());
    assert_eq!(ctx.out, before);
}

#[test]
fn write_appends_and_reports_length() {
    let db = full_db();
    let mut ctx = Context::new(&db);
    assert_eq!(ctx.write(b"hello"), 5);
    assert_eq!(ctx.write(b" world"), 6);
    ctx.flush();
    assert_eq!(ctx.out, b"hello world".to_vec());
}
