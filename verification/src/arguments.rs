//! The command line surface: one command with exactly one argument, the path
//! of the file to register.

use crate::model::EventView;
use crate::pipeline::Event;
use vstd::prelude::*;

verus! {

/// The status with which the command leaves when it was called wrongly.
pub const USAGE_STATUS: i32 = -1;

/// Reads the arguments that follow the program's name. Exactly one argument
/// is a request to register the file at that path; anything else is a wrong
/// call, and `None`.
pub fn request_from_arguments(arguments: Vec<String>) -> (r: Option<Event>)
    ensures
        r is Some <==> arguments@.len() == 1,
        r matches Some(event) ==> event@ == (EventView::Requested { path: arguments@[0]@ }),
{
    let mut arguments = arguments;
    if arguments.len() == 1 {
        match arguments.pop() {
            Some(path) => Some(Event::Requested { path }),
            None => None,
        }
    } else {
        None
    }
}

} // verus!
