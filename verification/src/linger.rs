//! Linger codec: between an optional duration and the native linger
//! structure.
//!
//! The native structure is a pair of 16-bit fields: an on/off flag and a
//! timeout in whole seconds. `None` encodes as "linger disabled"; `Some(d)`
//! as "linger enabled" with `d` truncated to whole seconds and saturated to
//! the field's width.

use vstd::prelude::*;

use crate::dur::Dur;

verus! {

/// The native linger structure: on/off flag and timeout in whole seconds.
#[derive(Clone, Copy, Debug, PartialEq, Eq, Structural)]
pub struct Linger {
    pub l_onoff: u16,
    pub l_linger: u16,
}

/// The native linger structure for an optional duration: disabled for
/// `None`, otherwise enabled with the duration's whole seconds, saturated
/// to the field's width.
pub open spec fn spec_dur2linger(dur: Option<Dur>) -> Linger {
    match dur {
        Some(d) => Linger {
            l_onoff: 1u16,
            l_linger: if d.secs > u16::MAX {
                u16::MAX
            } else {
                d.secs as u16
            },
        },
        None => Linger { l_onoff: 0u16, l_linger: 0u16 },
    }
}

/// The optional duration read back from the native linger structure: `None`
/// when disabled, otherwise that many whole seconds.
pub open spec fn spec_linger2dur(linger_opt: Linger) -> Option<Dur> {
    if linger_opt.l_onoff == 0 {
        None
    } else {
        Some(Dur { secs: linger_opt.l_linger as u64, nanos: 0u32 })
    }
}

/// Encodes an optional duration as the native linger structure.
pub fn dur2linger(dur: Option<Dur>) -> (r: Linger)
    ensures
        r == spec_dur2linger(dur),
{
    match dur {
        Some(d) => Linger {
            l_onoff: 1,
            l_linger: if d.secs > u16::MAX as u64 {
                u16::MAX
            } else {
                d.secs as u16
            },
        },
        None => Linger { l_onoff: 0, l_linger: 0 },
    }
}

/// Decodes the native linger structure back into an optional duration.
pub fn linger2dur(linger_opt: Linger) -> (r: Option<Dur>)
    ensures
        r == spec_linger2dur(linger_opt),
        r matches Some(d) ==> d.wf(),
{
    if linger_opt.l_onoff == 0 {
        None
    } else {
        Some(Dur { secs: linger_opt.l_linger as u64, nanos: 0 })
    }
}

/// Encoding a duration and decoding the result yields the duration
/// truncated to whole seconds, saturated to the field's width; a disabled
/// linger round-trips to `None`.
pub proof fn lemma_linger_round_trip(d: Dur)
    ensures
        spec_linger2dur(spec_dur2linger(Some(d))) == Some(
            Dur {
                secs: if d.secs > u16::MAX {
                    u16::MAX as u64
                } else {
                    d.secs
                },
                nanos: 0u32,
            },
        ),
        spec_linger2dur(spec_dur2linger(None::<Dur>)) == None::<Dur>,
{
}

} // verus!
