//! Choice of the TCP port the `dsh` server listens on.

use vstd::prelude::*;
use crate::text::{opt_view, trim, trimmed, parse_u16, parse_u16_str, decimal, lemma_decimal_roundtrip};

verus! {

/// The port tried first when `DSH_PORT` does not name one.
pub const DEFAULT_PORT: u16 = 3080;

/// How the port is to be obtained.
#[derive(Clone, Copy, Debug, PartialEq, Eq, Structural)]
pub enum PortRequest {
    /// Use this port as it is.
    Fixed(u16),
    /// Probe for a free port, trying `preferred` first.
    FindFree { preferred: u16 },
}

/// The port that a `DSH_PORT` value names: its trimmed text parsed as a
/// `u16`, where 0 names none (a server on port 0 listens on a random port
/// that the shell cannot know).
pub open spec fn port_from_env(value: Option<Seq<char>>) -> Option<u16> {
    match value {
        Some(v) => match parse_u16(trimmed(v)) {
            Some(n) => if n != 0 {
                Some(n)
            } else {
                None
            },
            None => None,
        },
        None => None,
    }
}

/// Decides the port from the value of `DSH_PORT` (`None` when unset or not
/// Unicode): the port it names, else a free port found from 3080 on.
pub fn resolve_port(env_value: Option<&str>) -> (r: PortRequest)
    ensures
        r == (match port_from_env(opt_view(env_value)) {
            Some(n) => PortRequest::Fixed(n),
            None => PortRequest::FindFree { preferred: DEFAULT_PORT },
        }),
{
    if let Some(v) = env_value {
        if let Some(n) = parse_u16_str(trim(v)) {
            if n != 0 {
                return PortRequest::Fixed(n);
            }
        }
    }
    PortRequest::FindFree { preferred: DEFAULT_PORT }
}

/// The outcome of the free-port probe: `preferred` when it could be bound,
/// else the port the system assigned to a wildcard bind, else `preferred`
/// all the same.
pub fn find_free_port(preferred: u16, preferred_bindable: bool, assigned: Option<u16>) -> (r: u16)
    ensures
        r == (if preferred_bindable {
            preferred
        } else {
            match assigned {
                Some(p) => p,
                None => preferred,
            }
        }),
{
    if preferred_bindable {
        preferred
    } else {
        match assigned {
            Some(p) => p,
            None => preferred,
        }
    }
}

/// Setting `DSH_PORT` to the decimal text of a non-zero port selects exactly
/// that port.
pub proof fn lemma_env_port_selects_port(n: u16)
    requires
        n != 0,
    ensures
        port_from_env(Some(decimal(n as nat))) == Some(n),
{
    lemma_decimal_roundtrip(n as nat);
}

} // verus!
