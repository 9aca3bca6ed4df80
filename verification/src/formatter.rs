//! Rendering a record into the bytes a sink writes to its target.

use vstd::prelude::*;
use crate::level::Level;
use crate::record::{Record, RecordView};

verus! {

/// Decimal digits of `n` in ASCII, most significant first, no leading zeros
/// (the single digit `0` for zero).
pub open spec fn decimal_digits(n: nat) -> Seq<u8>
    decreases n,
{
    if n < 10 {
        seq![(48 + n) as u8]
    } else {
        decimal_digits(n / 10).push((48 + n % 10) as u8)
    }
}

/// Writes `n` in decimal ASCII.
pub fn format_decimal(n: u64) -> (r: Vec<u8>)
    ensures
        r@ == decimal_digits(n as nat),
    decreases n,
{
    if n < 10 {
        let mut out: Vec<u8> = Vec::new();
        out.push(48 + n as u8);
        out
    } else {
        let mut out = format_decimal(n / 10);
        out.push(48 + (n % 10) as u8);
        out
    }
}

/// A decimal representation has at least one digit.
pub proof fn lemma_decimal_digits_len(n: nat)
    ensures
        decimal_digits(n).len() >= 1,
    decreases n,
{
    if n >= 10 {
        lemma_decimal_digits_len(n / 10);
    }
}

/// Decimal representations are unique: distinct numbers have distinct digit
/// strings.
pub proof fn lemma_decimal_digits_injective(m: nat, n: nat)
    requires
        decimal_digits(m) == decimal_digits(n),
    ensures
        m == n,
    decreases m,
{
    lemma_decimal_digits_len(m / 10);
    lemma_decimal_digits_len(n / 10);
    if m < 10 && n < 10 {
        assert(seq![(48 + m) as u8][0] == (48 + m) as u8);
        assert(seq![(48 + n) as u8][0] == (48 + n) as u8);
        assert(decimal_digits(m)[0] == decimal_digits(n)[0]);
        assert((48 + m) as u8 == 48 + m);
        assert((48 + n) as u8 == 48 + n);
    } else if m >= 10 && n >= 10 {
        assert(decimal_digits(m).drop_last() == decimal_digits(m / 10));
        assert(decimal_digits(n).drop_last() == decimal_digits(n / 10));
        lemma_decimal_digits_injective(m / 10, n / 10);
        assert(decimal_digits(m).last() == decimal_digits(n).last());
        assert(decimal_digits(m).last() == (48 + m % 10) as u8);
        assert(decimal_digits(n).last() == (48 + n % 10) as u8);
        assert(m % 10 < 10 && n % 10 < 10);
        assert((48 + m % 10) as u8 == 48 + m % 10);
        assert((48 + n % 10) as u8 == 48 + n % 10);
        assert(m % 10 == n % 10);
        assert(m == 10 * (m / 10) + m % 10) by {
            vstd::arithmetic::div_mod::lemma_fundamental_div_mod(m as int, 10);
        }
        assert(n == 10 * (n / 10) + n % 10) by {
            vstd::arithmetic::div_mod::lemma_fundamental_div_mod(n as int, 10);
        }
    } else {
        // one representation has a single digit, the other at least two
        assert(decimal_digits(m).len() != decimal_digits(n).len());
    }
}

/// The ASCII letter that marks a level in formatted output.
pub open spec fn level_mark(level: Level) -> u8 {
    match level {
        Level::Trace => 84,
        Level::Debug => 68,
        Level::Info => 73,
        Level::Warn => 87,
        Level::Error => 69,
        Level::Critical => 67,
    }
}

/// The level prefix, e.g. `[I] ` for [`Level::Info`].
pub open spec fn level_prefix(level: Level) -> Seq<u8> {
    seq![91u8, level_mark(level), 93u8, 32u8]
}

/// The level's marker letter.
pub fn level_mark_byte(level: Level) -> (r: u8)
    ensures
        r == level_mark(level),
{
    match level {
        Level::Trace => 84,
        Level::Debug => 68,
        Level::Info => 73,
        Level::Warn => 87,
        Level::Error => 69,
        Level::Critical => 67,
    }
}

/// Appends all of `src` to `dst`.
pub fn push_all(dst: &mut Vec<u8>, src: &Vec<u8>)
    ensures
        final(dst)@ == old(dst)@ + src@,
{
    let mut i: usize = 0;
    while i < src.len()
        invariant
            i <= src.len(),
            dst@ == old(dst)@ + src@.subrange(0, i as int),
        decreases src.len() - i,
    {
        dst.push(src[i]);
        proof {
            assert(old(dst)@ + src@.subrange(0, i as int) + seq![src@[i as int]]
                =~= old(dst)@ + src@.subrange(0, i + 1));
        }
        i += 1;
    }
    proof {
        assert(src@.subrange(0, src@.len() as int) =~= src@);
    }
}

/// Renders a record into the bytes written to a sink's target.
///
/// The output is, in order: the record's timestamp in decimal followed by a
/// space, if `with_time` is set; the level prefix (`[I] ` and the like), if
/// `with_level` is set; the payload; a terminating newline.
#[derive(Clone, Copy, PartialEq, Eq, Structural, Debug)]
pub struct Formatter {
    pub with_time: bool,
    pub with_level: bool,
}

impl Formatter {
    /// The exact bytes [`Formatter::format`] produces.
    pub open spec fn format_spec(self, rec: RecordView) -> Seq<u8> {
        (if self.with_time {
            decimal_digits(rec.time as nat) + seq![32u8]
        } else {
            Seq::<u8>::empty()
        }) + (if self.with_level {
            level_prefix(rec.level)
        } else {
            Seq::<u8>::empty()
        }) + rec.payload + seq![10u8]
    }

    /// A formatter that emits the timestamp, the level prefix, the payload
    /// and a newline.
    pub fn full() -> (r: Formatter)
        ensures
            r.with_time,
            r.with_level,
    {
        Formatter { with_time: true, with_level: true }
    }

    /// A formatter that emits the payload and a newline only.
    pub fn plain() -> (r: Formatter)
        ensures
            !r.with_time,
            !r.with_level,
    {
        Formatter { with_time: false, with_level: false }
    }

    /// Renders `record`.
    pub fn format(&self, record: &Record) -> (r: Vec<u8>)
        ensures
            r@ == self.format_spec(record@),
    {
        let mut out: Vec<u8> = Vec::new();
        if self.with_time {
            let digits = format_decimal(record.time());
            push_all(&mut out, &digits);
            out.push(32);
        }
        if self.with_level {
            out.push(91);
            out.push(level_mark_byte(record.level()));
            out.push(93);
            out.push(32);
        }
        push_all(&mut out, record.payload());
        out.push(10);
        proof {
            assert(out@ =~= self.format_spec(record@));
        }
        out
    }
}

} // verus!
