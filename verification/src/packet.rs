//! Decoding of what the UPS sends: one ASCII line per read.
//!
//! A status line starts with `(` and holds at least eight fields separated by
//! blanks; a line with a `V` in it is the firmware's answer to a version
//! request. Everything else is ignored. The decoder is a function of the
//! bytes and of the time stamp alone.
//!
//! Voltages, frequency and temperature are fixed-point numbers in
//! thousandths (`230500` is 230.5 V): the decimal text is read exactly, with
//! no floating point in between.

use crate::text::push_char;
use vstd::prelude::*;
use vstd::slice::*;
use vstd::string::*;

verus! {

pub const SPACE: u8 = 32;

pub const CARRIAGE_RETURN: u8 = 13;

pub const HASH: u8 = 35;

pub const OPEN_PAREN: u8 = 40;

pub const PLUS: u8 = 43;

pub const MINUS: u8 = 45;

pub const DOT: u8 = 46;

pub const DIGIT_ZERO: u8 = 48;

pub const DIGIT_ONE: u8 = 49;

pub const DIGIT_NINE: u8 = 57;

pub const LETTER_V: u8 = 86;

/// The largest whole part a decimal field is read to; longer numerals stop
/// here.
pub const WHOLE_CAP: u64 = 1_000_000_000_000;

/// Battery voltage, in thousandths of a volt, at which the pack counts as
/// empty.
pub const BATTERY_EMPTY_MILLIVOLTS: i64 = 21_000;

/// Battery voltage, in thousandths of a volt, at which the pack counts as
/// full.
pub const BATTERY_FULL_MILLIVOLTS: i64 = 26_800;

/// The status bits of one reading, with the field they were read from.
#[derive(Clone, Debug, PartialEq, Eq)]
pub struct UpsStatusFlags {
    pub raw: String,
    pub utility_fail: bool,
    pub battery_low: bool,
    pub bypass_active: bool,
    pub ups_failed: bool,
    pub ups_is_standby: bool,
    pub test_in_progress: bool,
    pub shutdown_active: bool,
    pub beeper_on: bool,
}

/// One reading of the UPS. The six measurements are in thousandths of their
/// unit; `timestamp_ms` is the time of the read in milliseconds since the
/// epoch.
#[derive(Clone, Debug, PartialEq, Eq)]
pub struct UpsData {
    pub input_voltage: i64,
    pub fault_voltage: i64,
    pub output_voltage: i64,
    pub load_percent: u64,
    pub frequency: i64,
    pub battery_voltage: i64,
    pub temperature: i64,
    pub battery_percent: u64,
    pub estimated_runtime: u64,
    pub timestamp_ms: u64,
    pub status: UpsStatusFlags,
}

/// What one read of the device can hold.
#[derive(Clone, Debug, PartialEq, Eq)]
pub enum DecodedPacket {
    Status(UpsData),
    Version(String),
}

/// A `UpsStatusFlags` with its text as a character sequence.
pub struct UpsStatusFlagsView {
    pub raw: Seq<char>,
    pub utility_fail: bool,
    pub battery_low: bool,
    pub bypass_active: bool,
    pub ups_failed: bool,
    pub ups_is_standby: bool,
    pub test_in_progress: bool,
    pub shutdown_active: bool,
    pub beeper_on: bool,
}

impl View for UpsStatusFlags {
    type V = UpsStatusFlagsView;

    open spec fn view(&self) -> UpsStatusFlagsView {
        UpsStatusFlagsView {
            raw: self.raw@,
            utility_fail: self.utility_fail,
            battery_low: self.battery_low,
            bypass_active: self.bypass_active,
            ups_failed: self.ups_failed,
            ups_is_standby: self.ups_is_standby,
            test_in_progress: self.test_in_progress,
            shutdown_active: self.shutdown_active,
            beeper_on: self.beeper_on,
        }
    }
}

/// A `UpsData` with its text as a character sequence.
pub struct UpsDataView {
    pub input_voltage: i64,
    pub fault_voltage: i64,
    pub output_voltage: i64,
    pub load_percent: u64,
    pub frequency: i64,
    pub battery_voltage: i64,
    pub temperature: i64,
    pub battery_percent: u64,
    pub estimated_runtime: u64,
    pub timestamp_ms: u64,
    pub status: UpsStatusFlagsView,
}

impl View for UpsData {
    type V = UpsDataView;

    open spec fn view(&self) -> UpsDataView {
        UpsDataView {
            input_voltage: self.input_voltage,
            fault_voltage: self.fault_voltage,
            output_voltage: self.output_voltage,
            load_percent: self.load_percent,
            frequency: self.frequency,
            battery_voltage: self.battery_voltage,
            temperature: self.temperature,
            battery_percent: self.battery_percent,
            estimated_runtime: self.estimated_runtime,
            timestamp_ms: self.timestamp_ms,
            status: self.status@,
        }
    }
}

/// A `DecodedPacket` with its texts as character sequences.
pub enum DecodedPacketView {
    Status(UpsDataView),
    Version(Seq<char>),
}

impl View for DecodedPacket {
    type V = DecodedPacketView;

    open spec fn view(&self) -> DecodedPacketView {
        match self {
            DecodedPacket::Status(s) => DecodedPacketView::Status(s@),
            DecodedPacket::Version(v) => DecodedPacketView::Version(v@),
        }
    }
}

/// The view of what a decoding gave.
pub open spec fn packet_view(p: Option<DecodedPacket>) -> Option<DecodedPacketView> {
    match p {
        Some(d) => Some(d@),
        None => None,
    }
}

// ---------------------------------------------------------------------
// Bytes and fields
// ---------------------------------------------------------------------
/// The number of leading bytes of `s` that differ from `stop`.
pub open spec fn span_len(s: Seq<u8>, stop: u8) -> nat
    decreases s.len(),
{
    if s.len() == 0 || s[0] == stop {
        0
    } else {
        1 + span_len(s.skip(1), stop)
    }
}

/// The number of leading bytes of `s` that equal `b`.
pub open spec fn leading_run(s: Seq<u8>, b: u8) -> nat
    decreases s.len(),
{
    if s.len() == 0 || s[0] != b {
        0
    } else {
        1 + leading_run(s.skip(1), b)
    }
}

/// The number of trailing bytes of `s` that equal `b`.
pub open spec fn trailing_run(s: Seq<u8>, b: u8) -> nat
    decreases s.len(),
{
    if s.len() == 0 || s.last() != b {
        0
    } else {
        1 + trailing_run(s.drop_last(), b)
    }
}

/// A span ends within the bytes, and is not empty where the first byte
/// differs from the one that stops it.
pub proof fn lemma_span_len_bound(s: Seq<u8>, stop: u8)
    ensures
        span_len(s, stop) <= s.len(),
        s.len() > 0 && s[0] != stop ==> span_len(s, stop) >= 1,
    decreases s.len(),
{
    if s.len() > 0 && s[0] != stop {
        lemma_span_len_bound(s.skip(1), stop);
    }
}

/// `s` without its leading and trailing blanks. Of all white space only the
/// blank is taken off: in a line of printable ASCII there is no other.
pub open spec fn trim_spaces(s: Seq<u8>) -> Seq<u8> {
    let t = s.skip(leading_run(s, SPACE) as int);
    t.take(t.len() - trailing_run(t, SPACE))
}

/// Printable ASCII: blank to tilde.
pub open spec fn is_printable(b: u8) -> bool {
    32 <= b <= 126
}

/// The printable bytes, as a predicate.
pub open spec fn printable_pred() -> spec_fn(u8) -> bool {
    |b: u8| is_printable(b)
}

/// The bytes other than `#`, as a predicate.
pub open spec fn not_hash_pred() -> spec_fn(u8) -> bool {
    |b: u8| b != HASH
}

/// What one read holds once the report id in front is dropped. A read of a
/// single byte has no report id.
pub open spec fn report_body(raw: Seq<u8>) -> Seq<u8> {
    if raw.len() > 1 {
        raw.skip(1)
    } else {
        raw
    }
}

/// The line of one read: the body up to the first carriage return, its
/// printable ASCII characters only, without blanks at either end.
pub open spec fn packet_line(raw: Seq<u8>) -> Seq<u8> {
    let body = report_body(raw);
    trim_spaces(body.take(span_len(body, CARRIAGE_RETURN) as int).filter(printable_pred()))
}

/// The fields of a line: its maximal runs of bytes other than blanks. Of
/// all white space only the blank parts fields: in a line of printable
/// ASCII there is no other.
pub open spec fn tokens(s: Seq<u8>) -> Seq<Seq<u8>>
    decreases s.len(),
{
    if s.len() == 0 {
        Seq::<Seq<u8>>::empty()
    } else if s[0] == SPACE {
        tokens(s.skip(1))
    } else {
        proof {
            lemma_span_len_bound(s, SPACE);
        }
        let n = span_len(s, SPACE) as int;
        seq![s.take(n)] + tokens(s.skip(n))
    }
}

/// The characters that stand for ASCII bytes.
pub open spec fn ascii_text(s: Seq<u8>) -> Seq<char> {
    Seq::new(s.len(), |i: int| s[i] as char)
}

// ---------------------------------------------------------------------
// Numbers
// ---------------------------------------------------------------------
/// A decimal digit.
pub open spec fn is_digit(b: u8) -> bool {
    DIGIT_ZERO <= b <= DIGIT_NINE
}

/// Every byte is a decimal digit.
pub open spec fn all_digits(s: Seq<u8>) -> bool {
    forall|i: int| 0 <= i < s.len() ==> is_digit(#[trigger] s[i])
}

/// The number a run of decimal digits denotes.
pub open spec fn digits_value(s: Seq<u8>) -> nat
    decreases s.len(),
{
    if s.len() == 0 {
        0
    } else {
        digits_value(s.drop_last()) * 10 + (s.last() - DIGIT_ZERO) as nat
    }
}

/// The value of a run of digits where there is at least one and the value
/// fits 64 bits, and 0 for anything else.
pub open spec fn unsigned_value(digits: Seq<u8>) -> u64 {
    if digits.len() > 0 && all_digits(digits) && digits_value(digits) <= u64::MAX {
        digits_value(digits) as u64
    } else {
        0
    }
}

/// What `str::parse::<u64>` followed by `unwrap_or(0)` gives for ASCII
/// input: the value of an optional `+` and at least one digit where it fits
/// 64 bits, and 0 for anything else.
pub open spec fn u64_of(s: Seq<u8>) -> u64 {
    if s.len() > 0 && s[0] == PLUS {
        unsigned_value(s.skip(1))
    } else {
        unsigned_value(s)
    }
}

/// 1 where the field starts with a sign, else 0.
pub open spec fn sign_len(s: Seq<u8>) -> int {
    if s.len() > 0 && (s[0] == PLUS || s[0] == MINUS) {
        1
    } else {
        0
    }
}

/// The digits before the decimal point.
pub open spec fn whole_part(s: Seq<u8>) -> Seq<u8> {
    let u = s.skip(sign_len(s));
    u.take(span_len(u, DOT) as int)
}

/// The digits behind the decimal point; empty where there is no point.
pub open spec fn frac_part(s: Seq<u8>) -> Seq<u8> {
    let u = s.skip(sign_len(s));
    let d = span_len(u, DOT) as int;
    if d < u.len() {
        u.skip(d + 1)
    } else {
        Seq::<u8>::empty()
    }
}

/// A decimal numeral: an optional sign, digits, and at most one point among
/// them, with at least one digit.
pub open spec fn is_decimal(s: Seq<u8>) -> bool {
    &&& all_digits(whole_part(s))
    &&& all_digits(frac_part(s))
    &&& whole_part(s).len() + frac_part(s).len() > 0
}

/// The value of digit `i` of a run of digits, 0 beyond its end.
pub open spec fn digit_at(s: Seq<u8>, i: int) -> int {
    if 0 <= i < s.len() {
        s[i] - DIGIT_ZERO
    } else {
        0
    }
}

/// The first three fractional digits as a number of thousandths.
pub open spec fn thousandths(frac: Seq<u8>) -> int {
    digit_at(frac, 0) * 100 + digit_at(frac, 1) * 10 + digit_at(frac, 2)
}

/// The smaller of two numbers.
pub open spec fn min_int(a: int, b: int) -> int {
    if a <= b {
        a
    } else {
        b
    }
}

/// The value of a decimal field in thousandths, cut off (not rounded) behind
/// the third fractional digit, the whole part stopping at `WHOLE_CAP`.
/// Anything that is no decimal numeral reads as 0.
pub open spec fn decimal_milli(s: Seq<u8>) -> int {
    if !is_decimal(s) {
        0
    } else {
        let magnitude = min_int(digits_value(whole_part(s)) as int, WHOLE_CAP as int) * 1000
            + thousandths(frac_part(s));
        if s[0] == MINUS {
            -magnitude
        } else {
            magnitude
        }
    }
}

/// The charge of the battery in percent: linear between the empty and the
/// full voltage, rounded to the nearest whole number (halves upwards), 0
/// below and 100 above.
pub open spec fn battery_percent_of(millivolts: int) -> int {
    if millivolts <= BATTERY_EMPTY_MILLIVOLTS {
        0
    } else if millivolts >= BATTERY_FULL_MILLIVOLTS {
        100
    } else {
        ((millivolts - BATTERY_EMPTY_MILLIVOLTS) * 2 + 58) / 116
    }
}

/// The load that the runtime estimate reckons with: never under 10 %.
pub open spec fn floored_load(load_percent: int) -> int {
    if load_percent < 10 {
        10
    } else {
        load_percent
    }
}

/// Minutes of runtime left: a full battery lasts 15 minutes at full load,
/// proportionally longer at less load and shorter at less charge; rounded
/// to the nearest minute (halves upwards) and held to 64 bits.
pub open spec fn runtime_of(battery_percent: int, load_percent: int) -> int {
    let load = floored_load(load_percent);
    min_int((30 * battery_percent + load) / (2 * load), u64::MAX as int)
}

/// Bit `index` of a status field: set where the field has a `1` there.
pub open spec fn flag_at(bits: Seq<u8>, index: int) -> bool {
    0 <= index < bits.len() && bits[index] == DIGIT_ONE
}

/// The reading that the fields of a status line denote.
pub open spec fn status_of(fields: Seq<Seq<u8>>, now_ms: u64) -> UpsDataView {
    let battery_voltage = decimal_milli(fields[5]) as i64;
    let load_percent = u64_of(fields[3]);
    let battery_percent = battery_percent_of(battery_voltage as int) as u64;
    UpsDataView {
        input_voltage: decimal_milli(fields[0]) as i64,
        fault_voltage: decimal_milli(fields[1]) as i64,
        output_voltage: decimal_milli(fields[2]) as i64,
        load_percent,
        frequency: decimal_milli(fields[4]) as i64,
        battery_voltage,
        temperature: decimal_milli(fields[6]) as i64,
        battery_percent,
        estimated_runtime: runtime_of(battery_percent as int, load_percent as int) as u64,
        timestamp_ms: now_ms,
        status: UpsStatusFlagsView {
            raw: ascii_text(fields[7]),
            utility_fail: flag_at(fields[7], 0),
            battery_low: flag_at(fields[7], 1),
            bypass_active: flag_at(fields[7], 2),
            ups_failed: flag_at(fields[7], 3),
            ups_is_standby: flag_at(fields[7], 4),
            test_in_progress: flag_at(fields[7], 5),
            shutdown_active: flag_at(fields[7], 6),
            beeper_on: flag_at(fields[7], 7),
        },
    }
}

/// The fields of a status line: what follows its opening parentheses, split
/// at blanks.
pub open spec fn status_fields(line: Seq<u8>) -> Seq<Seq<u8>> {
    tokens(line.skip(leading_run(line, OPEN_PAREN) as int))
}

/// The firmware text of a version line: the line without `#`, trimmed.
pub open spec fn version_text(line: Seq<u8>) -> Seq<char> {
    ascii_text(trim_spaces(line.filter(not_hash_pred())))
}

/// What a line denotes. The line is one of printable ASCII without blanks
/// at either end, as `packet_line` gives it.
pub open spec fn parsed_line(line: Seq<u8>, now_ms: u64) -> Option<DecodedPacketView> {
    if line.len() > 0 && line[0] == OPEN_PAREN {
        if status_fields(line).len() >= 8 {
            Some(DecodedPacketView::Status(status_of(status_fields(line), now_ms)))
        } else {
            None
        }
    } else if line.contains(LETTER_V) {
        Some(DecodedPacketView::Version(version_text(line)))
    } else {
        None
    }
}

/// What one read denotes.
pub open spec fn decoded(raw: Seq<u8>, now_ms: u64) -> Option<DecodedPacketView> {
    if raw.len() == 0 {
        None
    } else {
        parsed_line(packet_line(raw), now_ms)
    }
}

// ---------------------------------------------------------------------
// Scanning
// ---------------------------------------------------------------------
fn span(s: &[u8], stop: u8) -> (n: usize)
    ensures
        n == span_len(s@, stop),
        n <= s.len(),
{
    let mut i: usize = 0;
    assert(s@.skip(0) =~= s@);
    while i < s.len() && s[i] != stop
        invariant
            i <= s.len(),
            span_len(s@, stop) == i + span_len(s@.skip(i as int), stop),
        decreases s.len() - i,
    {
        assert(s@.skip(i as int).skip(1) =~= s@.skip(i + 1));
        i += 1;
    }
    i
}

fn leading(s: &[u8], b: u8) -> (n: usize)
    ensures
        n == leading_run(s@, b),
        n <= s.len(),
{
    let mut i: usize = 0;
    assert(s@.skip(0) =~= s@);
    while i < s.len() && s[i] == b
        invariant
            i <= s.len(),
            leading_run(s@, b) == i + leading_run(s@.skip(i as int), b),
        decreases s.len() - i,
    {
        assert(s@.skip(i as int).skip(1) =~= s@.skip(i + 1));
        i += 1;
    }
    i
}

fn trailing(s: &[u8], b: u8) -> (n: usize)
    ensures
        n == trailing_run(s@, b),
        n <= s.len(),
{
    let mut j: usize = s.len();
    assert(s@.take(j as int) =~= s@);
    while j > 0 && s[j - 1] == b
        invariant
            j <= s.len(),
            trailing_run(s@, b) == (s.len() - j) + trailing_run(s@.take(j as int), b),
        decreases j,
    {
        assert(s@.take(j as int).drop_last() =~= s@.take(j - 1));
        j -= 1;
    }
    s.len() - j
}

fn trim<'a>(s: &'a [u8]) -> (r: &'a [u8])
    ensures
        r@ == trim_spaces(s@),
{
    let a = leading(s, SPACE);
    let t = slice_subrange(s, a, s.len());
    assert(t@ =~= s@.skip(a as int));
    let k = trailing(t, SPACE);
    let r = slice_subrange(t, 0, t.len() - k);
    assert(r@ =~= t@.take(t.len() - k));
    r
}

fn printable_bytes(s: &[u8]) -> (out: Vec<u8>)
    ensures
        out@ == s@.filter(printable_pred()),
{
    let mut out: Vec<u8> = Vec::new();
    let mut i: usize = 0;
    proof {
        reveal(Seq::filter);
        assert(s@.take(0).filter(printable_pred()) =~= Seq::<u8>::empty());
    }
    while i < s.len()
        invariant
            i <= s.len(),
            out@ == s@.take(i as int).filter(printable_pred()),
        decreases s.len() - i,
    {
        let b = s[i];
        proof {
            assert(s@.take(i + 1) =~= s@.take(i as int).push(b));
            s@.take(i as int).lemma_filter_push(b, printable_pred());
        }
        if 32 <= b && b <= 126 {
            out.push(b);
        }
        i += 1;
    }
    assert(s@.take(s.len() as int) =~= s@);
    out
}

fn without_hash(s: &[u8]) -> (out: Vec<u8>)
    ensures
        out@ == s@.filter(not_hash_pred()),
{
    let mut out: Vec<u8> = Vec::new();
    let mut i: usize = 0;
    proof {
        reveal(Seq::filter);
        assert(s@.take(0).filter(not_hash_pred()) =~= Seq::<u8>::empty());
    }
    while i < s.len()
        invariant
            i <= s.len(),
            out@ == s@.take(i as int).filter(not_hash_pred()),
        decreases s.len() - i,
    {
        let b = s[i];
        proof {
            assert(s@.take(i + 1) =~= s@.take(i as int).push(b));
            s@.take(i as int).lemma_filter_push(b, not_hash_pred());
        }
        if b != HASH {
            out.push(b);
        }
        i += 1;
    }
    assert(s@.take(s.len() as int) =~= s@);
    out
}

fn contains_byte(s: &[u8], b: u8) -> (r: bool)
    ensures
        r == s@.contains(b),
{
    let mut i: usize = 0;
    while i < s.len()
        invariant
            i <= s.len(),
            forall|j: int| 0 <= j < i ==> s@[j] != b,
        decreases s.len() - i,
    {
        if s[i] == b {
            return true;
        }
        i += 1;
    }
    false
}

/// The text of ASCII bytes.
pub fn ascii_string(s: &[u8]) -> (out: String)
    ensures
        out@ == ascii_text(s@),
{
    let mut out = String::new();
    let mut i: usize = 0;
    while i < s.len()
        invariant
            i <= s.len(),
            out@ == ascii_text(s@.take(i as int)),
        decreases s.len() - i,
    {
        push_char(&mut out, s[i] as char);
        assert(out@ =~= ascii_text(s@.take(i + 1)));
        i += 1;
    }
    assert(s@.take(s.len() as int) =~= s@);
    out
}

/// The views of a list of fields.
pub open spec fn fields_view(fields: Seq<&[u8]>) -> Seq<Seq<u8>> {
    fields.map_values(|f: &[u8]| f@)
}

fn split_fields<'a>(s: &'a [u8]) -> (fields: Vec<&'a [u8]>)
    ensures
        fields_view(fields@) == tokens(s@),
{
    let mut fields: Vec<&'a [u8]> = Vec::new();
    let mut i: usize = 0;
    assert(s@.skip(0) =~= s@);
    assert(fields_view(fields@) + tokens(s@) =~= tokens(s@));
    while i < s.len()
        invariant
            i <= s.len(),
            tokens(s@) == fields_view(fields@) + tokens(s@.skip(i as int)),
        decreases s.len() - i,
    {
        let ghost rest = s@.skip(i as int);
        if s[i] == SPACE {
            assert(rest.skip(1) =~= s@.skip(i + 1));
            i += 1;
        } else {
            let tail = slice_subrange(s, i, s.len());
            assert(tail@ =~= rest);
            let n = span(tail, SPACE);
            proof {
                lemma_span_len_bound(rest, SPACE);
            }
            let field = slice_subrange(s, i, i + n);
            assert(field@ =~= rest.take(n as int));
            assert(rest.skip(n as int) =~= s@.skip(i + n));
            let ghost before = fields_view(fields@);
            fields.push(field);
            assert(fields_view(fields@) =~= before.push(field@));
            assert(before + (seq![field@] + tokens(s@.skip(i + n))) =~= before.push(field@)
                + tokens(s@.skip(i + n)));
            i += n;
        }
    }
    assert(fields_view(fields@) + tokens(s@.skip(s.len() as int)) =~= fields_view(fields@));
    fields
}

// ---------------------------------------------------------------------
// Numbers
// ---------------------------------------------------------------------
fn only_digits(s: &[u8]) -> (r: bool)
    ensures
        r == all_digits(s@),
{
    let mut i: usize = 0;
    while i < s.len()
        invariant
            i <= s.len(),
            forall|j: int| 0 <= j < i ==> is_digit(#[trigger] s@[j]),
        decreases s.len() - i,
    {
        if s[i] < DIGIT_ZERO || s[i] > DIGIT_NINE {
            return false;
        }
        i += 1;
    }
    true
}

/// The value of a prefix of digits never exceeds that of the whole.
pub proof fn lemma_digits_value_prefix(s: Seq<u8>, k: int)
    requires
        all_digits(s),
        0 <= k <= s.len(),
    ensures
        digits_value(s.take(k)) <= digits_value(s),
    decreases s.len(),
{
    if k == s.len() {
        assert(s.take(k) =~= s);
    } else {
        assert(s.drop_last().take(k) =~= s.take(k));
        lemma_digits_value_prefix(s.drop_last(), k);
    }
}

fn digits_to_u64(d: &[u8]) -> (r: u64)
    ensures
        r == unsigned_value(d@),
{
    if d.len() == 0 {
        return 0;
    }
    let mut acc: u64 = 0;
    let mut i: usize = 0;
    while i < d.len()
        invariant
            i <= d.len(),
            all_digits(d@.take(i as int)),
            acc == digits_value(d@.take(i as int)),
        decreases d.len() - i,
    {
        let b = d[i];
        if b < DIGIT_ZERO || b > DIGIT_NINE {
            assert(!is_digit(d@[i as int]));
            return 0;
        }
        let digit: u64 = (b - DIGIT_ZERO) as u64;
        proof {
            assert(d@.take(i + 1).drop_last() =~= d@.take(i as int));
            assert(d@.take(i + 1).last() == b);
        }
        if acc > (u64::MAX - digit) / 10 {
            proof {
                if all_digits(d@) {
                    lemma_digits_value_prefix(d@, i + 1);
                }
            }
            return 0;
        }
        acc = acc * 10 + digit;
        i += 1;
    }
    assert(d@.take(d.len() as int) =~= d@);
    acc
}

/// Reads an unsigned number as `str::parse::<u64>` does, with 0 for what
/// is none.
pub fn parse_u64_bytes(s: &[u8]) -> (r: u64)
    ensures
        r == u64_of(s@),
{
    if s.len() > 0 && s[0] == PLUS {
        let d = slice_subrange(s, 1, s.len());
        assert(d@ =~= s@.skip(1));
        digits_to_u64(d)
    } else {
        digits_to_u64(s)
    }
}

/// Reads an unsigned number as `str::parse::<u64>` does, with 0 for what
/// is none.
pub fn parse_u64(value: &str) -> (r: u64)
    ensures
        r == u64_of(value.spec_bytes()),
{
    parse_u64_bytes(value.as_bytes())
}

/// Whether character `index` of a status field is `1`.
pub fn status_bit(bits: &str, index: usize) -> (r: bool)
    ensures
        r == (index < bits@.len() && bits@[index as int] == '1'),
{
    if index < bits.unicode_len() {
        bits.get_char(index) == '1'
    } else {
        false
    }
}

fn flag_bit(bits: &[u8], index: usize) -> (r: bool)
    ensures
        r == flag_at(bits@, index as int),
{
    index < bits.len() && bits[index] == DIGIT_ONE
}

fn capped_value(s: &[u8]) -> (r: u64)
    requires
        all_digits(s@),
    ensures
        r == min_int(digits_value(s@) as int, WHOLE_CAP as int),
{
    let mut acc: u64 = 0;
    let mut i: usize = 0;
    while i < s.len()
        invariant
            i <= s.len(),
            all_digits(s@),
            acc == min_int(digits_value(s@.take(i as int)) as int, WHOLE_CAP as int),
        decreases s.len() - i,
    {
        let digit: u64 = (s[i] - DIGIT_ZERO) as u64;
        proof {
            assert(s@.take(i + 1).drop_last() =~= s@.take(i as int));
            assert(s@.take(i + 1).last() == s@[i as int]);
        }
        let next = acc * 10 + digit;
        acc = if next > WHOLE_CAP {
            WHOLE_CAP
        } else {
            next
        };
        i += 1;
    }
    assert(s@.take(s.len() as int) =~= s@);
    acc
}

fn digit_or_zero(s: &[u8], i: usize) -> (r: i64)
    requires
        all_digits(s@),
    ensures
        r == digit_at(s@, i as int),
        0 <= r <= 9,
{
    if i < s.len() {
        (s[i] - DIGIT_ZERO) as i64
    } else {
        0
    }
}

/// Reads a decimal field in thousandths.
pub fn parse_milli(field: &[u8]) -> (r: i64)
    ensures
        r == decimal_milli(field@),
{
    let n = field.len();
    let start: usize = if n > 0 && (field[0] == PLUS || field[0] == MINUS) {
        1
    } else {
        0
    };
    let u = slice_subrange(field, start, n);
    assert(u@ =~= field@.skip(sign_len(field@)));
    let d = span(u, DOT);
    let whole = slice_subrange(u, 0, d);
    assert(whole@ =~= whole_part(field@));
    let frac = if d < u.len() {
        slice_subrange(u, d + 1, u.len())
    } else {
        slice_subrange(u, 0, 0)
    };
    assert(frac@ =~= frac_part(field@));
    if !only_digits(whole) || !only_digits(frac) || whole.len() + frac.len() == 0 {
        return 0;
    }
    let w = capped_value(whole);
    let f = digit_or_zero(frac, 0) * 100 + digit_or_zero(frac, 1) * 10 + digit_or_zero(frac, 2);
    let magnitude: i64 = (w as i64) * 1000 + f;
    if field[0] == MINUS {
        -magnitude
    } else {
        magnitude
    }
}

/// The charge of the battery in percent for a voltage in thousandths of a
/// volt.
pub fn calculate_battery_percent(voltage: i64) -> (r: u64)
    ensures
        r == battery_percent_of(voltage as int),
        r <= 100,
{
    if voltage <= BATTERY_EMPTY_MILLIVOLTS {
        0
    } else if voltage >= BATTERY_FULL_MILLIVOLTS {
        100
    } else {
        (((voltage - BATTERY_EMPTY_MILLIVOLTS) * 2 + 58) / 116) as u64
    }
}

/// Minutes of runtime left at a charge and a load, both in percent.
pub fn estimate_runtime(battery_percent: u64, load_percent: u64) -> (r: u64)
    ensures
        r == runtime_of(battery_percent as int, load_percent as int),
{
    let load: u128 = if load_percent < 10 {
        10
    } else {
        load_percent as u128
    };
    let minutes: u128 = (30 * (battery_percent as u128) + load) / (2 * load);
    if minutes > u64::MAX as u128 {
        u64::MAX
    } else {
        minutes as u64
    }
}

// ---------------------------------------------------------------------
// Lines and packets
// ---------------------------------------------------------------------
/// Decodes one line. The line is meant to be what `packet_line` gives:
/// printable ASCII, without blanks at either end. Its fields are parted by
/// blanks, the only white space that such a line can hold; a tab or another
/// control character in `input` is no white space here but part of the
/// field it stands in, and blanks at either end are not taken off.
pub fn parse_ups_string(input: &[u8], now_ms: u64) -> (r: Option<DecodedPacket>)
    ensures
        packet_view(r) == parsed_line(input@, now_ms),
{
    if input.len() > 0 && input[0] == OPEN_PAREN {
        let skip = leading(input, OPEN_PAREN);
        let rest = slice_subrange(input, skip, input.len());
        assert(rest@ =~= input@.skip(skip as int));
        let parts = split_fields(rest);
        assert(fields_view(parts@).len() == parts@.len());
        if parts.len() < 8 {
            return None;
        }
        let ghost fields = fields_view(parts@);
        assert(forall|k: int| 0 <= k < 8 ==> parts@[k]@ == #[trigger] fields[k]);
        let status_bits = parts[7];
        let battery_voltage = parse_milli(parts[5]);
        let load_percent = parse_u64_bytes(parts[3]);
        let battery_percent = calculate_battery_percent(battery_voltage);
        let status = UpsData {
            input_voltage: parse_milli(parts[0]),
            fault_voltage: parse_milli(parts[1]),
            output_voltage: parse_milli(parts[2]),
            load_percent,
            frequency: parse_milli(parts[4]),
            battery_voltage,
            temperature: parse_milli(parts[6]),
            battery_percent,
            estimated_runtime: estimate_runtime(battery_percent, load_percent),
            timestamp_ms: now_ms,
            status: UpsStatusFlags {
                raw: ascii_string(status_bits),
                utility_fail: flag_bit(status_bits, 0),
                battery_low: flag_bit(status_bits, 1),
                bypass_active: flag_bit(status_bits, 2),
                ups_failed: flag_bit(status_bits, 3),
                ups_is_standby: flag_bit(status_bits, 4),
                test_in_progress: flag_bit(status_bits, 5),
                shutdown_active: flag_bit(status_bits, 6),
                beeper_on: flag_bit(status_bits, 7),
            },
        };
        assert(status@.status == status_of(fields, now_ms).status);
        assert(status@ == status_of(fields, now_ms));
        return Some(DecodedPacket::Status(status));
    }
    if contains_byte(input, LETTER_V) {
        let kept = without_hash(input);
        let text = ascii_string(trim(kept.as_slice()));
        return Some(DecodedPacket::Version(text));
    }
    None
}

/// Decodes what one read of the device returned.
pub fn decode_packet(raw_data: &[u8], now_ms: u64) -> (r: Option<DecodedPacket>)
    ensures
        packet_view(r) == decoded(raw_data@, now_ms),
{
    if raw_data.len() == 0 {
        return None;
    }
    let body = if raw_data.len() > 1 {
        slice_subrange(raw_data, 1, raw_data.len())
    } else {
        raw_data
    };
    assert(body@ =~= report_body(raw_data@));
    let end = span(body, CARRIAGE_RETURN);
    let head = slice_subrange(body, 0, end);
    assert(head@ =~= body@.take(end as int));
    let ascii = printable_bytes(head);
    parse_ups_string(trim(ascii.as_slice()), now_ms)
}

// ---------------------------------------------------------------------
// Laws
// ---------------------------------------------------------------------
/// A run of equal bytes in front of or behind the bytes is no longer than
/// the bytes.
pub proof fn lemma_runs_are_bounded(s: Seq<u8>, b: u8)
    ensures
        leading_run(s, b) <= s.len(),
        trailing_run(s, b) <= s.len(),
    decreases s.len(),
{
    if s.len() > 0 {
        if s[0] == b {
            lemma_runs_are_bounded(s.skip(1), b);
        }
        if s.last() == b {
            lemma_runs_are_bounded(s.drop_last(), b);
        }
    }
}

/// The line of a read holds printable ASCII and nothing else, so that the
/// blank is the only white space that can stand in it.
pub proof fn lemma_line_is_printable(raw: Seq<u8>)
    ensures
        forall|i: int| 0 <= i < packet_line(raw).len() ==> is_printable(#[trigger] packet_line(raw)[i]),
{
    let body = report_body(raw);
    let kept = body.take(span_len(body, CARRIAGE_RETURN) as int).filter(printable_pred());
    let front = kept.skip(leading_run(kept, SPACE) as int);
    lemma_runs_are_bounded(kept, SPACE);
    lemma_runs_are_bounded(front, SPACE);
    let line = packet_line(raw);
    assert(line == front.take(front.len() - trailing_run(front, SPACE)));
    assert forall|i: int| 0 <= i < line.len() implies is_printable(#[trigger] line[i]) by {
        let k = leading_run(kept, SPACE) as int + i;
        assert(line[i] == kept[k]);
        body.take(span_len(body, CARRIAGE_RETURN) as int).lemma_filter_pred(printable_pred(), k);
    }
}

/// A span holds no byte that stops it, and where it ends before the bytes
/// do, the byte it ends at is the one that stops it.
pub proof fn lemma_span_is_maximal(s: Seq<u8>, stop: u8)
    ensures
        forall|i: int| 0 <= i < span_len(s, stop) ==> #[trigger] s[i] != stop,
        span_len(s, stop) < s.len() ==> s[span_len(s, stop) as int] == stop,
    decreases s.len(),
{
    if s.len() > 0 && s[0] != stop {
        let rest = s.skip(1);
        lemma_span_is_maximal(rest, stop);
        lemma_span_len_bound(rest, stop);
        assert forall|i: int| 0 <= i < span_len(s, stop) implies #[trigger] s[i] != stop by {
            if i > 0 {
                assert(rest[i - 1] == s[i]);
            }
        }
        if span_len(s, stop) < s.len() {
            assert(rest[span_len(rest, stop) as int] == s[span_len(s, stop) as int]);
        }
    }
}

/// Every field holds at least one byte and no blank.
pub proof fn lemma_fields_hold_no_blank(s: Seq<u8>)
    ensures
        forall|k: int|
            0 <= k < tokens(s).len() ==> (#[trigger] tokens(s)[k]).len() > 0 && !tokens(
                s,
            )[k].contains(SPACE),
    decreases s.len(),
{
    if s.len() == 0 {
        assert(tokens(s).len() == 0);
    } else if s[0] == SPACE {
        lemma_fields_hold_no_blank(s.skip(1));
        assert(tokens(s) == tokens(s.skip(1)));
    } else {
        lemma_span_len_bound(s, SPACE);
        lemma_span_is_maximal(s, SPACE);
        let n = span_len(s, SPACE) as int;
        let first = s.take(n);
        let rest = tokens(s.skip(n));
        lemma_fields_hold_no_blank(s.skip(n));
        assert(tokens(s) =~= seq![first] + rest);
        assert(first.len() == n && n > 0);
        assert(tokens(s)[0] == first);
        assert(!first.contains(SPACE)) by {
            if first.contains(SPACE) {
                let i = choose|i: int| 0 <= i < first.len() && first[i] == SPACE;
                assert(s[i] == SPACE);
            }
        }
        assert forall|k: int| 0 <= k < tokens(s).len() implies (#[trigger] tokens(s)[k]).len()
            > 0 && !tokens(s)[k].contains(SPACE) by {
            if k > 0 {
                assert(tokens(s)[k] == rest[k - 1]);
            }
        }
    }
}

/// What a read decodes to depends on its bytes and the time stamp alone:
/// the same bytes with the same time stamp decode to the same.
pub proof fn lemma_decoding_is_pure(first: Seq<u8>, second: Seq<u8>, now_ms: u64)
    requires
        first =~= second,
    ensures
        decoded(first, now_ms) == decoded(second, now_ms),
{
}

/// A reading comes only from a line that starts with `(` and holds at least
/// eight fields: a status line with fewer gives nothing at all.
pub proof fn lemma_status_needs_eight_fields(raw: Seq<u8>, now_ms: u64)
    ensures
        decoded(raw, now_ms) matches Some(DecodedPacketView::Status(_)) ==> packet_line(raw).len()
            > 0 && packet_line(raw)[0] == OPEN_PAREN && status_fields(packet_line(raw)).len() >= 8,
        packet_line(raw).len() > 0 && packet_line(raw)[0] == OPEN_PAREN && status_fields(
            packet_line(raw),
        ).len() < 8 ==> decoded(raw, now_ms) is None,
{
}

/// The charge is 0 at and below the empty voltage, 100 at and above the
/// full voltage, 50 half way between them, always within 0 to 100, and it
/// never falls when the voltage rises.
pub proof fn lemma_battery_percent(low: int, high: int)
    requires
        low <= high,
    ensures
        low <= BATTERY_EMPTY_MILLIVOLTS ==> battery_percent_of(low) == 0,
        low >= BATTERY_FULL_MILLIVOLTS ==> battery_percent_of(low) == 100,
        battery_percent_of(23_900) == 50,
        0 <= battery_percent_of(low) <= 100,
        battery_percent_of(low) <= battery_percent_of(high),
{
}

} // verus!
