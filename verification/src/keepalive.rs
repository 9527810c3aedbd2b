//! Keepalive codec: between an optional duration and the native keepalive
//! structure.
//!
//! Keepalive is not set through the generic option table: the host OS takes
//! a control-code call carrying a structure of (enabled flag, idle time,
//! probe interval), all in milliseconds. `Some(d)` enables keepalive with
//! both times set to `d`'s millisecond encoding; `None` disables it. A read
//! reports `None` when keepalive is off or the probe interval is zero, and
//! otherwise reconstructs the duration from the probe interval.

use vstd::prelude::*;

use crate::dur::{dur2ms, dur_ms, lemma_duration_round_trip, ms2dur, spec_dur2ms, spec_ms2dur, Dur};
use crate::SockError;

verus! {

/// The native keepalive structure: enabled flag, idle time before the first
/// probe, and interval between probes, the times in milliseconds.
#[derive(Clone, Copy, Debug, PartialEq, Eq, Structural)]
pub struct TcpKeepalive {
    pub onoff: u32,
    pub keepalivetime: u32,
    pub keepaliveinterval: u32,
}

/// The native keepalive structure for an optional duration: disabled (all
/// zero) for `None`, otherwise enabled with idle time and probe interval
/// both set to the duration's millisecond encoding. A zero duration is
/// rejected, as everywhere a duration meets the millisecond encoding.
pub open spec fn spec_dur2keepalive(keepalive: Option<Dur>) -> Result<TcpKeepalive, SockError> {
    match spec_dur2ms(keepalive) {
        Ok(ms) => Ok(
            TcpKeepalive {
                onoff: if keepalive is Some {
                    1u32
                } else {
                    0u32
                },
                keepalivetime: ms,
                keepaliveinterval: ms,
            },
        ),
        Err(e) => Err(e),
    }
}

/// The optional duration read back from the native keepalive structure:
/// `None` when disabled or when the probe interval is zero, otherwise the
/// probe interval's milliseconds.
pub open spec fn spec_keepalive2dur(ka: TcpKeepalive) -> Option<Dur> {
    if ka.onoff == 0 {
        None
    } else {
        spec_ms2dur(ka.keepaliveinterval)
    }
}

/// Encodes an optional keepalive duration as the native structure.
pub fn dur2keepalive(keepalive: Option<Dur>) -> (r: Result<TcpKeepalive, SockError>)
    ensures
        r == spec_dur2keepalive(keepalive),
{
    let onoff: u32 = if keepalive.is_some() {
        1
    } else {
        0
    };
    match dur2ms(keepalive) {
        Ok(ms) => Ok(TcpKeepalive { onoff, keepalivetime: ms, keepaliveinterval: ms }),
        Err(e) => Err(e),
    }
}

/// Decodes the native keepalive structure back into an optional duration.
pub fn keepalive2dur(ka: TcpKeepalive) -> (r: Option<Dur>)
    ensures
        r == spec_keepalive2dur(ka),
        r matches Some(d) ==> d.wf(),
{
    if ka.onoff == 0 {
        None
    } else {
        ms2dur(ka.keepaliveinterval)
    }
}

/// Enabling keepalive with a positive duration and reading it back yields
/// the duration rounded up to whole milliseconds, saturated at the largest
/// native value; disabling it reads back as `None`.
pub proof fn lemma_keepalive_round_trip(d: Dur)
    requires
        d.wf(),
        dur_ms(d) > 0,
    ensures
        ({
            let ms = if dur_ms(d) > u32::MAX {
                u32::MAX as int
            } else {
                dur_ms(d)
            };
            &&& spec_dur2keepalive(Some(d)) matches Ok(ka) && ka.onoff == 1
                && ka.keepaliveinterval == ms
            &&& spec_keepalive2dur(
                TcpKeepalive { onoff: 1u32, keepalivetime: ms as u32, keepaliveinterval: ms as u32 },
            ) matches Some(d2) && d2.wf() && dur_ms(d2) == ms
        }),
        spec_keepalive2dur(
            TcpKeepalive { onoff: 0u32, keepalivetime: 0u32, keepaliveinterval: 0u32 },
        ) == None::<Dur>,
        spec_dur2keepalive(None::<Dur>) == Ok::<TcpKeepalive, SockError>(
            TcpKeepalive { onoff: 0u32, keepalivetime: 0u32, keepaliveinterval: 0u32 },
        ),
{
    lemma_duration_round_trip(d);
}

} // verus!
