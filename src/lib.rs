//! Verified request flows of a small payments gateway proxy: payouts
//! (quote, initialize, finalize), trade creation and trade finalization.
//! Each flow is a state machine that names the next outbound call or the
//! reply for the caller; the HTTP work itself is done by the host program.

use vstd::prelude::*;

pub mod config;
pub mod outbound;
pub mod payouts;
pub mod reference;
pub mod step;
pub mod trading;

verus! {

/// The greeting that shows the library is linked.
pub fn hello_world() -> (r: String)
    ensures
        r@ == GREETING@,
{
    String::from_str(GREETING)
}

/// The text that `hello_world` returns.
pub const GREETING: &'static str = "Bitnob API Demo in Rust!";

} // verus!
