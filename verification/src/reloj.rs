//! Unix time of the system clock.

use vstd::prelude::*;
use std::time::{Duration, SystemTime, SystemTimeError, UNIX_EPOCH};

verus! {

#[verifier::external_type_specification]
#[verifier::external_body]
pub struct ExSystemTime(SystemTime);

#[verifier::external_type_specification]
#[verifier::external_body]
pub struct ExSystemTimeError(SystemTimeError);

/// Calls `std::time::SystemTime::now`. Nothing is stated of the result: it is
/// whatever the clock reads.
#[verifier::external_body]
fn reloj_del_sistema() -> SystemTime {
    SystemTime::now()
}

/// What `SystemTime::duration_since(UNIX_EPOCH)` gives for the reading `t`:
/// the time elapsed since the Unix epoch, or an error when `t` lies before it.
pub uninterp spec fn desde_epoca_de(t: SystemTime) -> Result<Duration, SystemTimeError>;

/// What `Duration::as_secs` gives for `d`: its whole seconds, the fraction
/// dropped.
pub uninterp spec fn segundos_de(d: Duration) -> u64;

/// Calls `std::time::SystemTime::duration_since` with `UNIX_EPOCH`. The
/// contract claims only that the outcome is a function of the reading `t`,
/// named `desde_epoca_de`; which readings fail and what duration comes back
/// are left unsaid, since `SystemTime` and `Duration` are opaque here.
#[verifier::external_body]
fn desde_epoca(t: &SystemTime) -> (r: Result<Duration, SystemTimeError>)
    ensures
        r == desde_epoca_de(*t),
{
    t.duration_since(UNIX_EPOCH)
}

/// Calls `std::time::Duration::as_secs`. The contract claims only that the
/// result is a function of `d`, named `segundos_de`; its value is left unsaid,
/// since `Duration` is opaque here.
#[verifier::external_body]
fn segundos_completos(d: &Duration) -> (r: u64)
    ensures
        r == segundos_de(*d),
{
    d.as_secs()
}

/// Unix time of a clock reading, in whole seconds.
pub open spec fn unix_spec(t: SystemTime) -> u64 {
    match desde_epoca_de(t) {
        Ok(d) => segundos_de(d),
        Err(_) => 0,
    }
}

/// Unix time of the clock reading `t`: the whole seconds elapsed since the
/// Unix epoch, or 0 when `t` lies before the epoch.
pub fn unix_de(t: &SystemTime) -> (ts: u64)
    ensures
        ts == unix_spec(*t),
{
    let lectura = match desde_epoca(t) {
        Ok(d) => Some(segundos_completos(&d)),
        Err(_) => None,
    };
    segundos_o_cero(lectura)
}

/// Timestamp from a clock reading: the whole seconds since the Unix epoch
/// when the clock could be read as such, 0 otherwise.
pub fn segundos_o_cero(lectura: Option<u64>) -> (ts: u64)
    ensures
        ts == (match lectura {
            Some(s) => s,
            None => 0,
        }),
{
    match lectura {
        Some(s) => s,
        None => 0,
    }
}

/// Current Unix time in whole seconds; 0 when the clock reads a time before
/// the Unix epoch. The result is `unix_spec` of a clock reading; which
/// reading is up to the clock.
pub fn now_unix() -> (ts: u64)
    ensures
        exists|t: SystemTime| ts == #[trigger] unix_spec(t),
{
    let t = reloj_del_sistema();
    let ts = unix_de(&t);
    assert(ts == unix_spec(t));
    ts
}

} // verus!
