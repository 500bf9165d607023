//! Service traits for run loops that are meant never to return.
use vstd::prelude::*;
use vstd::string::*;

verus! {

/// A service with a run loop that must never return.
pub trait Service {
    /// Runs the service's loop.
    fn run_loop(self);
}

/// A service whose run loop may fail with `ErrorType`, and otherwise never
/// returns. Any return of the loop is fatal for the hosting process; the
/// report of that end is `run_loop_failure`.
pub trait TryService: Sized {
    type ErrorType;

    /// The failable run loop.
    fn try_run_loop(self) -> Result<(), Self::ErrorType>;
}

/// The report of a run loop of `name` that ended, with the description of
/// its error where it ended with one.
pub open spec fn failure_text(name: Seq<char>, error: Option<Seq<char>>) -> Seq<char> {
    match error {
        Some(e) => name + " run loop has failed with "@ + e,
        None => name + " has failed without reporting a error"@,
    }
}

/// Composes the fatal report of a run loop of service `service_name` that
/// returned, with the description of its error where it failed.
pub fn run_loop_failure(service_name: &str, error: Option<&str>) -> (r: String)
    ensures
        r@ == failure_text(
            service_name@,
            match error {
                Some(e) => Some(e@),
                None => None,
            },
        ),
{
    let mut r = String::from_str(service_name);
    match error {
        Some(e) => {
            r.append(" run loop has failed with ");
            r.append(e);
        },
        None => {
            r.append(" has failed without reporting a error");
        },
    }
    r
}

} // verus!
