use vstd::arithmetic::div_mod::lemma_fundamental_div_mod;
use vstd::prelude::*;
use vstd::string::*;

verus! {

/// Unix timestamp, in seconds, of the start of slot 0 (the beacon chain
/// genesis instant, 2020-12-01T12:00:23Z).
pub const GENESIS_SLOT_TIME: u64 = 1606824023;

/// Nominal length of one slot, in seconds.
pub const SLOT_PERIOD_SECONDS: u64 = 12;

/// Why a timestamp could not be converted to a slot.
#[derive(Clone, Copy, Debug, PartialEq, Eq, Structural)]
pub enum SlotError {
    /// The timestamp lies before the genesis instant.
    BeforeGenesis,
}

/// A slot number on the beacon chain: the index of the fixed-width time
/// window that contains a given instant, counted from genesis.
#[derive(Clone, Copy, Debug, PartialEq, Eq, Structural)]
pub struct Slot {
    pub number: u64,
}

/// The slot index that contains `timestamp`: floor division of the seconds
/// elapsed since genesis by the slot period.
pub open spec fn spec_slot_of(timestamp: u64) -> int {
    (timestamp - GENESIS_SLOT_TIME) / (SLOT_PERIOD_SECONDS as int)
}

/// The instant (unix seconds) at which the slot with index `number` begins.
pub open spec fn spec_start_time(number: int) -> int {
    GENESIS_SLOT_TIME + number * SLOT_PERIOD_SECONDS
}

impl Slot {
    /// Create a slot from a unix timestamp in seconds, rounding down to the
    /// slot whose window contains the timestamp. Fails for any timestamp
    /// before genesis.
    pub fn from_timestamp(timestamp: u64) -> (r: Result<Slot, SlotError>)
        ensures
            timestamp < GENESIS_SLOT_TIME <==> r is Err,
            r is Err ==> r == Err::<Slot, SlotError>(SlotError::BeforeGenesis),
            r is Ok ==> r->Ok_0.number == spec_slot_of(timestamp),
    {
        if timestamp < GENESIS_SLOT_TIME {
            Err(SlotError::BeforeGenesis)
        } else {
            Ok(Slot { number: (timestamp - GENESIS_SLOT_TIME) / SLOT_PERIOD_SECONDS })
        }
    }

    /// The unix timestamp, in seconds, at which this slot's window begins.
    pub fn start_timestamp(self) -> (r: u64)
        requires
            spec_start_time(self.number as int) <= u64::MAX,
        ensures
            r == spec_start_time(self.number as int),
    {
        GENESIS_SLOT_TIME + self.number * SLOT_PERIOD_SECONDS
    }

    /// The slot immediately after this one.
    pub fn next(&self) -> (r: Slot)
        requires
            self.number < u64::MAX,
        ensures
            r.number == self.number + 1,
    {
        Slot { number: self.number + 1 }
    }
}

/// The character for a single decimal digit `d`.
pub open spec fn spec_digit_char(d: int) -> char {
    if d == 0 {
        '0'
    } else if d == 1 {
        '1'
    } else if d == 2 {
        '2'
    } else if d == 3 {
        '3'
    } else if d == 4 {
        '4'
    } else if d == 5 {
        '5'
    } else if d == 6 {
        '6'
    } else if d == 7 {
        '7'
    } else if d == 8 {
        '8'
    } else {
        '9'
    }
}

/// The decimal digits of `n`, most significant first.
pub open spec fn spec_decimal_digits(n: nat) -> Seq<char>
    decreases n,
{
    if n < 10 {
        seq![spec_digit_char(n as int)]
    } else {
        spec_decimal_digits(n / 10).push(spec_digit_char((n % 10) as int))
    }
}

/// How a slot number is rendered: its decimal digits, left-padded with
/// spaces to a width of at least 7 characters.
pub open spec fn spec_slot_display(n: nat) -> Seq<char> {
    let digits = spec_decimal_digits(n);
    if digits.len() >= 7 {
        digits
    } else {
        Seq::new((7 - digits.len()) as nat, |i: int| ' ') + digits
    }
}

/// Append the single decimal digit `d` to `res`.
fn append_digit(res: &mut String, d: u64)
    requires
        d < 10,
    ensures
        final(res)@ == old(res)@ + seq![spec_digit_char(d as int)],
{
    match d {
        0 => {
            proof {
                reveal_strlit("0");
            }
            res.append("0");
        },
        1 => {
            proof {
                reveal_strlit("1");
            }
            res.append("1");
        },
        2 => {
            proof {
                reveal_strlit("2");
            }
            res.append("2");
        },
        3 => {
            proof {
                reveal_strlit("3");
            }
            res.append("3");
        },
        4 => {
            proof {
                reveal_strlit("4");
            }
            res.append("4");
        },
        5 => {
            proof {
                reveal_strlit("5");
            }
            res.append("5");
        },
        6 => {
            proof {
                reveal_strlit("6");
            }
            res.append("6");
        },
        7 => {
            proof {
                reveal_strlit("7");
            }
            res.append("7");
        },
        8 => {
            proof {
                reveal_strlit("8");
            }
            res.append("8");
        },
        9 => {
            proof {
                reveal_strlit("9");
            }
            res.append("9");
        },
        _ => {
            proof {
                assert(false);
            }
        },
    }
    assert(res@ =~= old(res)@ + seq![spec_digit_char(d as int)]);
}

/// Append the decimal digits of `n`, most significant first, to `res`.
fn push_decimal_digits(n: u64, res: &mut String)
    ensures
        final(res)@ == old(res)@ + spec_decimal_digits(n as nat),
    decreases n,
{
    if n >= 10 {
        push_decimal_digits(n / 10, res);
    }
    append_digit(res, n % 10);
    assert(res@ =~= old(res)@ + spec_decimal_digits(n as nat));
}

impl Slot {
    /// Render the slot number for log lines: decimal digits right-aligned
    /// in a field of 7 characters.
    pub fn display_string(&self) -> (r: String)
        ensures
            r@ == spec_slot_display(self.number as nat),
    {
        let mut digits = String::new();
        push_decimal_digits(self.number, &mut digits);
        let len = digits.as_str().unicode_len();
        let mut res = String::new();
        let mut i = len;
        while i < 7
            invariant
                i >= len,
                i <= 7 || i == len,
                res@ =~= Seq::new((i - len) as nat, |j: int| ' '),
            decreases 7 - i,
        {
            proof {
                reveal_strlit(" ");
            }
            res.append(" ");
            i = i + 1;
            assert(res@ =~= Seq::new((i - len) as nat, |j: int| ' '));
        }
        res.append(digits.as_str());
        assert(res@ =~= spec_slot_display(self.number as nat));
        res
    }
}

/// Any instant at or after genesis falls inside the window of the slot it
/// maps to: the slot's start time is at most the instant, and the next
/// slot's start time is strictly after it.
pub proof fn lemma_slot_window_contains_time(timestamp: u64)
    requires
        timestamp >= GENESIS_SLOT_TIME,
    ensures
        spec_start_time(spec_slot_of(timestamp)) <= timestamp,
        timestamp < spec_start_time(spec_slot_of(timestamp) + 1),
{
    let d = timestamp - GENESIS_SLOT_TIME;
    let p = SLOT_PERIOD_SECONDS as int;
    lemma_fundamental_div_mod(d, p);
    assert(d == p * (d / p) + d % p);
    assert((spec_slot_of(timestamp) + 1) * p == spec_slot_of(timestamp) * p + p) by (nonlinear_arith);
}

} // verus!
