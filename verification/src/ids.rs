use vstd::prelude::*;
use std::time::{Duration, SystemTime, SystemTimeError, UNIX_EPOCH};

verus! {

#[verifier::external_type_specification]
#[verifier::external_body]
pub struct ExSystemTime(SystemTime);

#[verifier::external_type_specification]
#[verifier::external_body]
pub struct ExSystemTimeError(SystemTimeError);

/// The lower-case hexadecimal digit of `d`, for `d < 16`.
pub open spec fn hex_digit(d: nat) -> char {
    if d < 10 {
        (d + 48) as char
    } else {
        (d + 87) as char
    }
}

/// The value of a lower-case hexadecimal digit.
pub open spec fn hex_digit_value(c: char) -> int {
    if '0' <= c <= '9' {
        c as int - 48
    } else {
        c as int - 87
    }
}

/// Whether `c` is one of `0`-`9`, `a`-`f`.
pub open spec fn is_lower_hex_digit(c: char) -> bool {
    ('0' <= c <= '9') || ('a' <= c <= 'f')
}

/// `n` written in lower-case hexadecimal, without leading zeros, as
/// `format!("{:x}", n)` writes it.
pub open spec fn lower_hex(n: nat) -> Seq<char>
    decreases n,
{
    if n < 16 {
        seq![hex_digit(n)]
    } else {
        lower_hex(n / 16).push(hex_digit(n % 16))
    }
}

/// The number that a sequence of hexadecimal digits denotes.
pub open spec fn hex_value(s: Seq<char>) -> int
    decreases s.len(),
{
    if s.len() == 0 {
        0
    } else {
        hex_value(s.drop_last()) * 16 + hex_digit_value(s.last())
    }
}

/// A digit reads back as the value it was written from.
proof fn lemma_hex_digit_value(d: nat)
    requires
        d < 16,
    ensures
        hex_digit_value(hex_digit(d)) == d,
        is_lower_hex_digit(hex_digit(d)),
        hex_digit(d) == '0' ==> d == 0,
{
    if d < 10 {
        assert((d + 48) as char as int == d + 48);
    } else {
        assert((d + 87) as char as int == d + 87);
    }
}

/// Reading a hexadecimal numeral back gives the number it was written
/// from; the numeral has only lower-case digits and no leading zero.
pub proof fn lemma_lower_hex_round_trip(n: nat)
    ensures
        hex_value(lower_hex(n)) == n,
        lower_hex(n).len() >= 1,
        forall|i: int| 0 <= i < lower_hex(n).len() ==> #[trigger] is_lower_hex_digit(lower_hex(n)[i]),
        lower_hex(n)[0] == '0' ==> n == 0,
    decreases n,
{
    if n >= 16 {
        lemma_lower_hex_round_trip(n / 16);
        let p = lower_hex(n / 16);
        assert(lower_hex(n).drop_last() =~= p);
        lemma_hex_digit_value(n % 16);
        assert(hex_value(lower_hex(n)) == hex_value(p) * 16 + hex_digit_value(hex_digit(n % 16)));
        assert((n / 16) * 16 + n % 16 == n);
        assert(lower_hex(n)[0] == p[0]);
        assert forall|i: int| 0 <= i < lower_hex(n).len() implies #[trigger] is_lower_hex_digit(
            lower_hex(n)[i],
        ) by {
            if i < p.len() {
                assert(lower_hex(n)[i] == p[i]);
            } else {
                assert(lower_hex(n)[i] == hex_digit(n % 16));
            }
        }
    } else {
        assert(seq![hex_digit(n)].drop_last() =~= Seq::<char>::empty());
        lemma_hex_digit_value(n);
        assert(hex_value(Seq::<char>::empty()) == 0);
        assert(hex_value(lower_hex(n)) == hex_value(Seq::<char>::empty()) * 16 + hex_digit_value(
            hex_digit(n),
        ));
    }
}

/// Distinct numbers are written as distinct hexadecimal numerals.
pub proof fn lemma_lower_hex_injective(a: nat, b: nat)
    ensures
        lower_hex(a) == lower_hex(b) ==> a == b,
{
    lemma_lower_hex_round_trip(a);
    lemma_lower_hex_round_trip(b);
}

/// The one-character text of the hexadecimal digit `d`.
fn hex_digit_str(d: u8) -> (s: &'static str)
    requires
        d < 16,
    ensures
        s@ == seq![hex_digit(d as nat)],
{
    match d {
        0 => { proof { reveal_strlit("0"); } "0" },
        1 => { proof { reveal_strlit("1"); } "1" },
        2 => { proof { reveal_strlit("2"); } "2" },
        3 => { proof { reveal_strlit("3"); } "3" },
        4 => { proof { reveal_strlit("4"); } "4" },
        5 => { proof { reveal_strlit("5"); } "5" },
        6 => { proof { reveal_strlit("6"); } "6" },
        7 => { proof { reveal_strlit("7"); } "7" },
        8 => { proof { reveal_strlit("8"); } "8" },
        9 => { proof { reveal_strlit("9"); } "9" },
        10 => { proof { reveal_strlit("a"); } "a" },
        11 => { proof { reveal_strlit("b"); } "b" },
        12 => { proof { reveal_strlit("c"); } "c" },
        13 => { proof { reveal_strlit("d"); } "d" },
        14 => { proof { reveal_strlit("e"); } "e" },
        _ => { proof { reveal_strlit("f"); } "f" },
    }
}

/// Writes `n` in lower-case hexadecimal without leading zeros.
pub fn to_lower_hex(n: u128) -> (s: String)
    ensures
        s@ == lower_hex(n as nat),
{
    let mut m: u128 = n;
    let mut s = String::new();
    assert(lower_hex(n as nat) =~= lower_hex(m as nat) + s@);
    while m >= 16
        invariant
            lower_hex(n as nat) == lower_hex(m as nat) + s@,
        decreases m,
    {
        let d: u8 = (m % 16) as u8;
        let mut t = String::from_str(hex_digit_str(d));
        t.append(s.as_str());
        assert(lower_hex(m as nat) == lower_hex((m / 16) as nat).push(hex_digit((m % 16) as nat)));
        assert(lower_hex(m as nat) + s@ =~= lower_hex((m / 16) as nat) + t@);
        s = t;
        m = m / 16;
    }
    let d: u8 = m as u8;
    let mut t = String::from_str(hex_digit_str(d));
    t.append(s.as_str());
    assert(lower_hex(n as nat) =~= t@);
    t
}

/// `SystemTime::now`: the current reading of the system clock. Nothing is
/// stated of it: it depends on the time of the call.
#[verifier::external_body]
fn clock_now() -> SystemTime {
    SystemTime::now()
}

/// `SystemTime::duration_since(UNIX_EPOCH)`: the time elapsed since the
/// Unix epoch, or an error when the reading lies before it. Nothing is
/// stated of the result: it depends on the clock reading.
#[verifier::external_body]
fn since_unix_epoch(t: &SystemTime) -> Result<Duration, SystemTimeError> {
    t.duration_since(UNIX_EPOCH)
}

/// `Duration::as_nanos`: the whole nanoseconds of a duration. Nothing is
/// stated of the number: a `Duration` is opaque here.
#[verifier::external_body]
fn whole_nanos(d: &Duration) -> u128 {
    d.as_nanos()
}

/// The nanoseconds since the Unix epoch of a clock reading, or 0 for a
/// reading before the epoch (`elapsed` is `None` then).
pub open spec fn stamp_of(elapsed: Option<u128>) -> u128 {
    match elapsed {
        Some(n) => n,
        None => 0,
    }
}

/// The nanoseconds elapsed since the Unix epoch at the time of the call,
/// or `None` when the clock reads before the epoch.
pub fn clock_elapsed() -> Option<u128> {
    match since_unix_epoch(&clock_now()) {
        Ok(d) => Some(whole_nanos(&d)),
        Err(_) => None,
    }
}

/// A reading of the system clock, taken by `read_clock` and by nothing
/// else: its field is private to this module.
pub struct ClockReading {
    elapsed: Option<u128>,
}

impl View for ClockReading {
    type V = Option<u128>;

    /// The nanoseconds since the Unix epoch of the reading, or `None` for a
    /// reading before the epoch.
    closed spec fn view(&self) -> Option<u128> {
        self.elapsed
    }
}

impl ClockReading {
    /// The nanoseconds since the Unix epoch of the reading, or `None` for a
    /// reading before the epoch.
    pub fn elapsed(&self) -> (e: Option<u128>)
        ensures
            e == self@,
    {
        self.elapsed
    }
}

/// Reads the system clock. What it reads depends on the time of the call.
pub fn read_clock() -> ClockReading {
    ClockReading { elapsed: clock_elapsed() }
}

/// A reading's stamp is its nanoseconds since the epoch, and 0 for a
/// reading before the epoch; its identifier reads back as that stamp, and
/// distinct stamps give distinct identifiers.
pub proof fn lemma_stamp_and_identifier(elapsed: Option<u128>, other: Option<u128>)
    ensures
        elapsed matches Some(n) ==> stamp_of(elapsed) == n,
        elapsed is None ==> stamp_of(elapsed) == 0,
        hex_value(lower_hex(stamp_of(elapsed) as nat)) == stamp_of(elapsed),
        stamp_of(elapsed) != stamp_of(other) ==> lower_hex(stamp_of(elapsed) as nat) != lower_hex(
            stamp_of(other) as nat,
        ),
{
    lemma_lower_hex_round_trip(stamp_of(elapsed) as nat);
    lemma_lower_hex_injective(stamp_of(elapsed) as nat, stamp_of(other) as nat);
}

/// The stamp of a clock reading: its nanoseconds since the Unix epoch, or 0
/// when it lies before the epoch.
pub fn stamp_from_elapsed(elapsed: Option<u128>) -> (n: u128)
    ensures
        n == stamp_of(elapsed),
{
    match elapsed {
        Some(n) => n,
        None => 0,
    }
}

/// The identifier of a clock reading: its stamp in lower-case hexadecimal.
pub fn id_of_elapsed(elapsed: Option<u128>) -> (id: String)
    ensures
        id@ == lower_hex(stamp_of(elapsed) as nat),
{
    to_lower_hex(stamp_from_elapsed(elapsed))
}

/// Distinct clock readings since the epoch give distinct identifiers.
pub proof fn lemma_distinct_readings_distinct_ids(a: Option<u128>, b: Option<u128>)
    ensures
        stamp_of(a) != stamp_of(b) ==> lower_hex(stamp_of(a) as nat) != lower_hex(
            stamp_of(b) as nat,
        ),
{
    lemma_lower_hex_injective(stamp_of(a) as nat, stamp_of(b) as nat);
}

/// A time-based identifier: the nanoseconds since the Unix epoch in
/// lower-case hexadecimal, or `0` when the clock reads before the epoch.
/// What the reading is depends on the time of the call; what is made of it
/// is `id_of_elapsed`.
pub fn uuid_simple() -> (id: String)
    ensures
        exists|elapsed: Option<u128>| id@ == #[trigger] lower_hex(stamp_of(elapsed) as nat),
{
    let elapsed = clock_elapsed();
    let id = id_of_elapsed(elapsed);
    assert(id@ == lower_hex(stamp_of(elapsed) as nat));
    id
}

} // verus!
