//! The script runner: what one firing launches, how its output is
//! reported, and the bounded retry of the unsubscribe that closes it.

pub mod run;
