//! Process configuration: the port to listen on.

use crate::decimal::{parse_u16, parsed_u16};
use vstd::prelude::*;

verus! {

/// The port used where none is configured.
pub const DEFAULT_PORT: u16 = 8080;

/// The port that a configured text selects: the number it denotes, and the
/// default where the text is absent or denotes no 16-bit number.
pub open spec fn port_spec(configured: Option<Seq<char>>) -> u16 {
    match configured {
        Some(text) => match parsed_u16(text) {
            Some(port) => port,
            None => DEFAULT_PORT,
        },
        None => DEFAULT_PORT,
    }
}

/// The port to listen on, given the configured text if there is one.
pub fn get_port(configured: Option<&str>) -> (port: u16)
    ensures
        port == port_spec(
            match configured {
                Some(text) => Some(text@),
                None => None,
            },
        ),
{
    match configured {
        Some(text) => match parse_u16(text) {
            Some(port) => port,
            None => DEFAULT_PORT,
        },
        None => DEFAULT_PORT,
    }
}

} // verus!
