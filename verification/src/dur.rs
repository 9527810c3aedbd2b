//! Duration codec: between an optional duration and the native integer
//! timeout encodings.
//!
//! The native timeout is a count of whole milliseconds in one 32-bit word,
//! where zero is the sentinel for "no timeout". So `None` ("block
//! indefinitely") encodes as zero, a positive duration is rounded up to
//! whole milliseconds and saturated to [`INFINITE`], and a zero duration is
//! rejected locally: it would otherwise be read back as "no timeout".

use vstd::prelude::*;
use vstd::arithmetic::div_mod::{
    lemma_fundamental_div_mod, lemma_fundamental_div_mod_converse_div,
    lemma_fundamental_div_mod_converse_mod,
};

use crate::{SockError, INFINITE};

verus! {

/// A span of time: whole seconds plus a sub-second nanosecond part.
#[derive(Clone, Copy, Debug, PartialEq, Eq, Hash, Structural)]
pub struct Dur {
    pub secs: u64,
    pub nanos: u32,
}

impl Dur {
    /// The nanosecond part never reaches a whole second.
    pub open spec fn wf(self) -> bool {
        self.nanos < 1_000_000_000
    }

    pub fn new(secs: u64, nanos: u32) -> (r: Dur)
        requires
            nanos < 1_000_000_000,
        ensures
            r == (Dur { secs, nanos }),
    {
        Dur { secs, nanos }
    }

    pub fn from_secs(secs: u64) -> (r: Dur)
        ensures
            r == (Dur { secs, nanos: 0u32 }),
    {
        Dur { secs, nanos: 0 }
    }

    pub fn from_millis(ms: u64) -> (r: Dur)
        ensures
            r == (Dur { secs: (ms / 1000) as u64, nanos: ((ms % 1000) * 1_000_000) as u32 }),
            r.wf(),
    {
        Dur { secs: ms / 1000, nanos: (ms % 1000) as u32 * 1_000_000 }
    }
}

/// A duration's length in whole milliseconds, rounded up.
pub open spec fn dur_ms(d: Dur) -> int {
    d.secs * 1000 + d.nanos / 1_000_000 + if d.nanos % 1_000_000 > 0 {
        1int
    } else {
        0int
    }
}

/// The native timeout word for an optional duration: zero for `None`,
/// otherwise the millisecond count rounded up and saturated to
/// [`INFINITE`]; a zero duration is rejected, since zero on the wire
/// already means "no timeout".
pub open spec fn spec_dur2ms(dur: Option<Dur>) -> Result<u32, SockError> {
    match dur {
        None => Ok(0u32),
        Some(d) => {
            let ms = dur_ms(d);
            if ms == 0 {
                Err(SockError::InvalidInput)
            } else if ms > u32::MAX {
                Ok(INFINITE)
            } else {
                Ok(ms as u32)
            }
        },
    }
}

/// The optional duration read back from the native timeout word: zero is
/// "no timeout", anything else is that many milliseconds.
pub open spec fn spec_ms2dur(raw: u32) -> Option<Dur> {
    if raw == 0 {
        None
    } else {
        Some(Dur { secs: (raw / 1000) as u64, nanos: ((raw % 1000) * 1_000_000) as u32 })
    }
}

/// Encodes an optional duration as the native timeout word.
pub fn dur2ms(dur: Option<Dur>) -> (r: Result<u32, SockError>)
    ensures
        r == spec_dur2ms(dur),
{
    match dur {
        None => Ok(0),
        Some(d) => {
            let base: u128 = (d.secs as u128) * 1000;
            let frac: u128 = (d.nanos / 1_000_000) as u128;
            let round: u128 = if d.nanos % 1_000_000 > 0 {
                1
            } else {
                0
            };
            let ms: u128 = base + frac + round;
            if ms == 0 {
                Err(SockError::InvalidInput)
            } else if ms > 0xFFFF_FFFF {
                Ok(INFINITE)
            } else {
                Ok(ms as u32)
            }
        },
    }
}

/// Decodes the native timeout word back into an optional duration.
pub fn ms2dur(raw: u32) -> (r: Option<Dur>)
    ensures
        r == spec_ms2dur(raw),
        r matches Some(d) ==> d.wf(),
{
    if raw == 0 {
        None
    } else {
        Some(Dur { secs: (raw / 1000) as u64, nanos: (raw % 1000) * 1_000_000 })
    }
}

/// Encoding a positive duration and decoding the result yields the duration
/// rounded up to whole milliseconds, saturated at the largest native
/// timeout; re-encoding the decoded value is stable.
pub proof fn lemma_duration_round_trip(d: Dur)
    requires
        d.wf(),
        dur_ms(d) > 0,
    ensures
        ({
            let ms = if dur_ms(d) > u32::MAX {
                u32::MAX as int
            } else {
                dur_ms(d)
            };
            &&& spec_dur2ms(Some(d)) == Ok::<u32, SockError>(ms as u32)
            &&& spec_ms2dur(ms as u32) matches Some(d2) && d2.wf() && dur_ms(d2) == ms
                && spec_dur2ms(Some(d2)) == Ok::<u32, SockError>(ms as u32)
        }),
{
    let ms = if dur_ms(d) > u32::MAX {
        u32::MAX as int
    } else {
        dur_ms(d)
    };
    let m = ms as u32;
    let d2 = Dur { secs: (m / 1000) as u64, nanos: ((m % 1000) * 1_000_000) as u32 };
    assert(spec_ms2dur(m) == Some(d2));
    let k = (m % 1000) as int;
    lemma_fundamental_div_mod_converse_div(k * 1_000_000, 1_000_000, k, 0);
    lemma_fundamental_div_mod_converse_mod(k * 1_000_000, 1_000_000, k, 0);
    lemma_fundamental_div_mod(m as int, 1000);
    assert(dur_ms(d2) == ms);
}

/// `None` encodes to the "no timeout" sentinel and that sentinel decodes to
/// `None`; encoding a duration fails if and only if the duration is exactly
/// zero, and then with invalid input, never with a system error.
pub proof fn lemma_duration_codec_edges(d: Dur)
    ensures
        spec_dur2ms(None::<Dur>) == Ok::<u32, SockError>(0u32),
        spec_ms2dur(0u32) == None::<Dur>,
        dur_ms(d) == 0 <==> d.secs == 0 && d.nanos == 0,
        spec_dur2ms(Some(d)) == Err::<u32, SockError>(SockError::InvalidInput) <==> d.secs == 0
            && d.nanos == 0,
        dur_ms(d) > 0 ==> spec_dur2ms(Some(d)) is Ok,
{
    lemma_fundamental_div_mod(d.nanos as int, 1_000_000);
}

} // verus!
