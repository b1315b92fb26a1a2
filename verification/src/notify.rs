//! The desktop notifications of the phase changes.

use crate::text::{decimal, push_decimal};
use vstd::prelude::*;

verus! {

/// A desktop notification: its title and its body.
pub struct Notification {
    pub title: String,
    pub body: String,
}

/// The body of the notification at the end of study phase `cycles`.
pub open spec fn study_done_body(cycles: nat) -> Seq<char> {
    "Study session #"@ + decimal(cycles) + " complete. Take a break."@
}

/// The body of the notification at the end of a session of `cycles` study phases.
pub open spec fn session_done_body(cycles: nat) -> Seq<char> {
    "All done! "@ + decimal(cycles) + " cycles completed."@
}

pub fn study_done(cycles: u32) -> (n: Notification)
    ensures
        n.title@ == "Break time!"@,
        n.body@ == study_done_body(cycles as nat),
{
    let title = String::from_str("Break time!");
    let mut body = String::from_str("Study session #");
    push_decimal(&mut body, cycles as u128);
    body.append(" complete. Take a break.");
    Notification { title, body }
}

pub fn break_done() -> (n: Notification)
    ensures
        n.title@ == "Back to work!"@,
        n.body@ == "Break is over. Time to study."@,
{
    Notification {
        title: String::from_str("Back to work!"),
        body: String::from_str("Break is over. Time to study."),
    }
}

pub fn session_done(cycles: u32) -> (n: Notification)
    ensures
        n.title@ == "Session complete!"@,
        n.body@ == session_done_body(cycles as nat),
{
    let title = String::from_str("Session complete!");
    let mut body = String::from_str("All done! ");
    push_decimal(&mut body, cycles as u128);
    body.append(" cycles completed.");
    Notification { title, body }
}

} // verus!
