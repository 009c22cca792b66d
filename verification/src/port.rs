//! Port selection for the backend listener.
//!
//! In development the first attempt prefers a fixed, well-known port so a
//! companion dev proxy can target a stable address; every other attempt, and
//! every attempt in production, takes an OS-assigned ephemeral port.  Port
//! selection never fails the launch: when no ephemeral port can be obtained
//! the fixed development port is used as a last resort.

use vstd::prelude::*;

verus! {

/// The fixed development port, also the last-resort fallback when ephemeral
/// allocation fails.
pub const FALLBACK_PORT: u16 = 5179;

/// Whether the supervisor runs against a development layout (interpreter and
/// source tree) or a production layout (a standalone executable).
#[derive(Clone, Copy, Debug, PartialEq, Eq, Structural)]
pub enum Mode {
    Development,
    Production,
}

/// The port that one launch attempt uses, given the outcome of the two
/// underlying mechanisms: `fixed` is the port actually bound when the fixed
/// development port was probed (absent when the probe failed or was not
/// made), `ephemeral` is what the OS-assigned allocator returned.
pub open spec fn spec_resolve_port(
    mode: Mode,
    attempt: int,
    fixed: Option<u16>,
    ephemeral: Option<u16>,
) -> u16 {
    if mode == Mode::Development && attempt == 0 && fixed is Some {
        match fixed {
            Some(p) => p,
            None => FALLBACK_PORT,
        }
    } else {
        match ephemeral {
            Some(p) => p,
            None => FALLBACK_PORT,
        }
    }
}

/// Combines the outcomes of the two port mechanisms into the port for this
/// attempt, exactly as `spec_resolve_port` states.
pub fn resolve_port(mode: Mode, attempt: usize, fixed: Option<u16>, ephemeral: Option<u16>) -> (p:
    u16)
    ensures
        p == spec_resolve_port(mode, attempt as int, fixed, ephemeral),
{
    if mode == Mode::Development && attempt == 0 {
        if let Some(f) = fixed {
            return f;
        }
    }
    match ephemeral {
        Some(p) => p,
        None => FALLBACK_PORT,
    }
}

/// Relies on portpicker's `pick_unused_port`: asks the OS for a TCP/UDP port
/// that was free at the instant of the probe, or `None` when none could be
/// found.  The result depends on the machine's state, so nothing more is
/// promised of it.
#[verifier::external_body]
fn pick_ephemeral_port() -> Option<u16> {
    portpicker::pick_unused_port()
}

/// Chooses the port for launch attempt `attempt`.  `fixed` is the outcome of
/// the caller's probe of the fixed development port (`None` outside the
/// first development attempt, or when binding it failed).  The choice never
/// fails: some port is always returned.
pub fn allocate_port(mode: Mode, attempt: usize, fixed: Option<u16>) -> (p: u16)
    ensures
        (mode == Mode::Development && attempt == 0 && fixed is Some) ==> Some(p) == fixed,
        exists|e: Option<u16>| p == spec_resolve_port(mode, attempt as int, fixed, e),
{
    let ephemeral: Option<u16> = if mode == Mode::Development && attempt == 0 && fixed.is_some() {
        // The fixed port decides this attempt; skip the ephemeral probe.
        None
    } else {
        pick_ephemeral_port()
    };
    let p: u16 = resolve_port(mode, attempt, fixed, ephemeral);
    proof {
        assert(p == spec_resolve_port(mode, attempt as int, fixed, ephemeral));
    }
    p
}

} // verus!
