//! For how long the application has run.

use crate::text::{decimal, push_decimal, string_of};
use vstd::prelude::*;
use vstd::string::*;

verus! {

/// When the application started, in seconds since the epoch.
pub struct AppState {
    start_time: i64,
}

impl AppState {
    /// The moment of the start.
    pub closed spec fn started(&self) -> i64 {
        self.start_time
    }

    /// The state of an application that starts now.
    pub fn new(now: i64) -> (state: Self)
        ensures
            state.started() == now,
    {
        AppState { start_time: now }
    }
}

/// The decimal numeral of an integer, with a minus sign where it is negative.
pub open spec fn signed_decimal(n: int) -> Seq<char> {
    if n < 0 {
        seq!['-'] + decimal((-n) as nat)
    } else {
        decimal(n as nat)
    }
}

/// The seconds elapsed since the start, as a numeral.
pub fn get_elapsed_time(state: &AppState, now: i64) -> (seconds: String)
    ensures
        seconds@ == signed_decimal(now - state.started()),
{
    let start = state.start_time;
    let mut out: Vec<char> = Vec::new();
    if now >= start {
        let elapsed: u64 = (now as i128 - start as i128) as u64;
        push_decimal(&mut out, elapsed);
        assert(out@ =~= decimal((now - start) as nat));
    } else {
        let behind: u64 = (start as i128 - now as i128) as u64;
        out.push('-');
        push_decimal(&mut out, behind);
        assert(out@ =~= seq!['-'] + decimal((start - now) as nat));
    }
    string_of(&out)
}

} // verus!
