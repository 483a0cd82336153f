//! Trusted boundary to the terminal capability database.
//!
//! The database itself, and the parameter-substitution language of its
//! templates, belong to the `terminfo` crate; this module declares the type,
//! names what it holds, and wraps the two calls the library makes into it.
//!
//! The expansion engine is only called on templates that pass a verified
//! scan of the template bytes ([`template_ok`]): on a `%` escape outside its
//! grammar the engine loops without advancing, and its arithmetic operators
//! work on unchecked `i32`, so the scan admits exactly the escapes whose
//! interpretation always terminates and cannot overflow or divide by zero. A
//! template outside that subset is reported as an expansion failure without
//! being handed to the engine.

use vstd::prelude::*;

use crate::error::Error;
use terminfo::expand::Expand;

verus! {

#[verifier::external_type_specification]
#[verifier::external_body]
pub struct ExDatabase(terminfo::Database);

/// The string-valued capabilities a database holds, keyed by capability name
/// (alias resolution included): name to unexpanded template bytes.
pub uninterp spec fn db_caps(db: terminfo::Database) -> Map<Seq<char>, Seq<u8>>;

/// What expanding a template with the given numeric parameters yields:
/// `Some` bytes on success, `None` where the template is malformed.
/// With a fresh expansion context the result depends on the template and the
/// parameters alone.
pub uninterp spec fn expansion_of(template: Seq<u8>, params: Seq<u16>) -> Option<Seq<u8>>;

/// Templates at least this long are rejected: it keeps every counter the
/// expansion engine maintains per template item well below `i32::MAX`.
pub const TEMPLATE_LEN_CAP: usize = 0x8000_0000;

/// An ASCII decimal digit.
pub open spec fn digit_byte(b: u8) -> bool {
    48 <= b <= 57
}

/// An ASCII letter, either case.
pub open spec fn letter_byte(b: u8) -> bool {
    65 <= b <= 90 || 97 <= b <= 122
}

/// A print-flag byte of the expansion grammar: space, `#`, `+` or `-`.
pub open spec fn flag_byte(b: u8) -> bool {
    b == 32 || b == 35 || b == 43 || b == 45
}

/// A print-format byte of the expansion grammar: `d`, `o`, `x`, `X`, `s`
/// or `c`.
pub open spec fn format_byte(b: u8) -> bool {
    b == 100 || b == 111 || b == 120 || b == 88 || b == 115 || b == 99
}

/// An arithmetic operator of the expansion grammar: `+`, `-`, `*`, `/` or
/// `m`. These are the escapes whose interpretation does unchecked `i32`
/// arithmetic, so the accepted subset leaves them out.
pub open spec fn arith_byte(b: u8) -> bool {
    b == 43 || b == 45 || b == 42 || b == 47 || b == 109
}

/// A two-byte escape whose interpretation is always safe: `l`, `i`, the
/// bitwise and logical operators `& | ^ ~ A O !`, the comparisons `= > <`,
/// and the conditionals `? t e ;`.
pub open spec fn plain_op_byte(b: u8) -> bool {
    b == 108 || b == 105 || b == 38 || b == 124 || b == 94 || b == 126 || b == 65 || b == 79
        || b == 33 || b == 61 || b == 62 || b == 60 || b == 63 || b == 116 || b == 101 || b == 59
}

/// Every byte of `t` from position `i` on belongs to a recognized template
/// item, with the arithmetic operators left out. The branches follow the
/// grammar's own order, where an operator byte is claimed before a print
/// flag: `%` `%` is a literal percent; `%` `'` c `'` and `%` `{` digits `}`
/// are constants; `%p1`..`%p9`, `%P`/`%g` with a letter, and the two-byte
/// operators follow; everything else must be a print escape, optional `:`,
/// flags, width, precision and a format byte.
pub open spec fn items_ok(t: Seq<u8>, i: int) -> bool
    decreases t.len() - i, 4int,
{
    if i >= t.len() {
        true
    } else if t[i] != 37 {
        items_ok(t, i + 1)
    } else if i + 1 >= t.len() {
        false
    } else if t[i + 1] == 37 {
        items_ok(t, i + 2)
    } else if t[i + 1] == 39 {
        i + 3 < t.len() && t[i + 3] == 39 && items_ok(t, i + 4)
    } else if t[i + 1] == 123 {
        const_digits_ok(t, i + 2)
    } else if t[i + 1] == 112 {
        i + 2 < t.len() && 49 <= t[i + 2] <= 57 && items_ok(t, i + 3)
    } else if t[i + 1] == 80 || t[i + 1] == 103 {
        i + 2 < t.len() && letter_byte(t[i + 2]) && items_ok(t, i + 3)
    } else if arith_byte(t[i + 1]) {
        false
    } else if plain_op_byte(t[i + 1]) {
        items_ok(t, i + 2)
    } else if t[i + 1] == 58 {
        flags_ok(t, i + 2)
    } else {
        flags_ok(t, i + 1)
    }
}

/// Inside a `%{` constant: digits up to the closing `}`.
pub open spec fn const_digits_ok(t: Seq<u8>, i: int) -> bool
    decreases t.len() - i, 0int,
{
    if i >= t.len() {
        false
    } else if digit_byte(t[i]) {
        const_digits_ok(t, i + 1)
    } else if t[i] == 125 {
        items_ok(t, i + 1)
    } else {
        false
    }
}

/// Inside a print escape: flag bytes, then the width.
pub open spec fn flags_ok(t: Seq<u8>, i: int) -> bool
    decreases t.len() - i, 3int,
{
    if i >= t.len() {
        false
    } else if flag_byte(t[i]) {
        flags_ok(t, i + 1)
    } else {
        width_ok(t, i)
    }
}

/// Inside a print escape after the flags: width digits, then an optional
/// `.`-led precision, then the format byte.
pub open spec fn width_ok(t: Seq<u8>, i: int) -> bool
    decreases t.len() - i, 2int,
{
    if i >= t.len() {
        false
    } else if digit_byte(t[i]) {
        width_ok(t, i + 1)
    } else if t[i] == 46 {
        precision_ok(t, i + 1)
    } else if format_byte(t[i]) {
        items_ok(t, i + 1)
    } else {
        false
    }
}

/// Inside a print escape after the `.`: precision digits, then the format
/// byte.
pub open spec fn precision_ok(t: Seq<u8>, i: int) -> bool
    decreases t.len() - i, 1int,
{
    if i >= t.len() {
        false
    } else if digit_byte(t[i]) {
        precision_ok(t, i + 1)
    } else if format_byte(t[i]) {
        items_ok(t, i + 1)
    } else {
        false
    }
}

/// The templates the library hands to the expansion engine: short enough
/// for its counters, and made only of recognized, arithmetic-free items, so
/// that expanding them always terminates and never panics.
pub open spec fn template_ok(t: Seq<u8>) -> bool {
    t.len() < TEMPLATE_LEN_CAP && items_ok(t, 0)
}

/// The byte sequence an operation must produce for capability `name` with
/// parameters `params`, or the error owed when it cannot: missing
/// capability, a template outside the accepted subset, or a failed
/// expansion.
pub open spec fn sequence_for(db: terminfo::Database, name: Seq<char>, params: Seq<u16>) -> Result<Seq<u8>, Error> {
    if !db_caps(db).contains_key(name) {
        Err(Error::CapabilityMissing)
    } else if !template_ok(db_caps(db)[name]) {
        Err(Error::Expansion)
    } else {
        match expansion_of(db_caps(db)[name], params) {
            Some(b) => Ok(b),
            None => Err(Error::Expansion),
        }
    }
}

fn scan_items(t: &Vec<u8>, i: usize) -> (r: bool)
    requires
        i <= t@.len(),
    ensures
        r == items_ok(t@, i as int),
    decreases t@.len() - i, 4int,
{
    if i >= t.len() {
        true
    } else if t[i] != 37 {
        scan_items(t, i + 1)
    } else if i + 1 >= t.len() {
        false
    } else {
        let b = t[i + 1];
        if b == 37 {
            scan_items(t, i + 2)
        } else if b == 39 {
            if t.len() - i >= 4 && t[i + 3] == 39 {
                scan_items(t, i + 4)
            } else {
                false
            }
        } else if b == 123 {
            scan_const_digits(t, i + 2)
        } else if b == 112 {
            if i + 2 < t.len() && 49 <= t[i + 2] && t[i + 2] <= 57 {
                scan_items(t, i + 3)
            } else {
                false
            }
        } else if b == 80 || b == 103 {
            if i + 2 < t.len() && (65 <= t[i + 2] && t[i + 2] <= 90 || 97 <= t[i + 2] && t[i + 2]
                <= 122) {
                scan_items(t, i + 3)
            } else {
                false
            }
        } else if b == 43 || b == 45 || b == 42 || b == 47 || b == 109 {
            false
        } else if b == 108 || b == 105 || b == 38 || b == 124 || b == 94 || b == 126 || b == 65
            || b == 79 || b == 33 || b == 61 || b == 62 || b == 60 || b == 63 || b == 116 || b
            == 101 || b == 59 {
            scan_items(t, i + 2)
        } else if b == 58 {
            scan_flags(t, i + 2)
        } else {
            scan_flags(t, i + 1)
        }
    }
}

fn scan_const_digits(t: &Vec<u8>, i: usize) -> (r: bool)
    requires
        i <= t@.len(),
    ensures
        r == const_digits_ok(t@, i as int),
    decreases t@.len() - i, 0int,
{
    if i >= t.len() {
        false
    } else if 48 <= t[i] && t[i] <= 57 {
        scan_const_digits(t, i + 1)
    } else if t[i] == 125 {
        scan_items(t, i + 1)
    } else {
        false
    }
}

fn scan_flags(t: &Vec<u8>, i: usize) -> (r: bool)
    requires
        i <= t@.len(),
    ensures
        r == flags_ok(t@, i as int),
    decreases t@.len() - i, 3int,
{
    if i >= t.len() {
        false
    } else {
        let b = t[i];
        if b == 32 || b == 35 || b == 43 || b == 45 {
            scan_flags(t, i + 1)
        } else {
            scan_width(t, i)
        }
    }
}

fn scan_width(t: &Vec<u8>, i: usize) -> (r: bool)
    requires
        i <= t@.len(),
    ensures
        r == width_ok(t@, i as int),
    decreases t@.len() - i, 2int,
{
    if i >= t.len() {
        false
    } else {
        let b = t[i];
        if 48 <= b && b <= 57 {
            scan_width(t, i + 1)
        } else if b == 46 {
            scan_precision(t, i + 1)
        } else if b == 100 || b == 111 || b == 120 || b == 88 || b == 115 || b == 99 {
            scan_items(t, i + 1)
        } else {
            false
        }
    }
}

fn scan_precision(t: &Vec<u8>, i: usize) -> (r: bool)
    requires
        i <= t@.len(),
    ensures
        r == precision_ok(t@, i as int),
    decreases t@.len() - i, 1int,
{
    if i >= t.len() {
        false
    } else {
        let b = t[i];
        if 48 <= b && b <= 57 {
            scan_precision(t, i + 1)
        } else if b == 100 || b == 111 || b == 120 || b == 88 || b == 115 || b == 99 {
            scan_items(t, i + 1)
        } else {
            false
        }
    }
}

/// Decides [`template_ok`] for a template about to be expanded.
pub(crate) fn scan_template(t: &Vec<u8>) -> (r: bool)
    ensures
        r == template_ok(t@),
{
    if t.len() >= TEMPLATE_LEN_CAP {
        false
    } else {
        scan_items(t, 0)
    }
}

/// Relies on `terminfo::Database::raw`: looks a capability up by name,
/// resolving standard aliases; a string-valued capability yields its
/// template, any other outcome yields nothing.
#[verifier::external_body]
pub(crate) fn lookup_cap(db: &terminfo::Database, name: &str) -> (r: Option<Vec<u8>>)
    ensures
        r is Some <==> db_caps(*db).contains_key(name@),
        r matches Some(t) ==> t@ == db_caps(*db)[name@],
{
    match db.raw(name) {
        Some(terminfo::capability::Value::String(s)) => Some(s.clone()),
        Some(terminfo::capability::Value::True) => None,
        Some(terminfo::capability::Value::Number(_)) => None,
        None => None,
    }
}

/// Relies on `<[u8] as terminfo::expand::Expand>::expand`: substitutes the
/// numeric parameters into the template under a fresh expansion context, so
/// the outcome is a function of template and parameters alone. Only
/// templates inside the accepted subset may be handed to it: on those the
/// engine always terminates and never panics, while an unrecognized escape
/// would make it loop without advancing and its arithmetic operators
/// overflow or divide by zero on unchecked `i32`.
#[verifier::external_body]
pub(crate) fn expand_template(template: &Vec<u8>, params: &Vec<u16>) -> (r: Option<Vec<u8>>)
    requires
        template_ok(template@),
    ensures
        r is Some <==> expansion_of(template@, params@) is Some,
        r matches Some(b) ==> expansion_of(template@, params@) == Some(b@),
{
    let ps: Vec<terminfo::expand::Parameter> = params
        .iter()
        .map(|p| terminfo::expand::Parameter::Number(*p as i32))
        .collect();
    let mut ctx = terminfo::expand::Context::default();
    let mut out: Vec<u8> = Vec::new();
    match template.as_slice().expand(&mut out, &ps, &mut ctx) {
        Ok(()) => Some(out),
        Err(_) => None,
    }
}

} // verus!
