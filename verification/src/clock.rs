use vstd::prelude::*;

verus! {

/// The current time as whole seconds since the Unix epoch.
///
/// Relies on std::time::SystemTime::now followed by duration_since with
/// std::time::UNIX_EPOCH: the elapsed whole seconds since the epoch. A
/// clock that cannot be read, or one that stands before the epoch, aborts
/// the process with a diagnostic; that is the library's sole fatal
/// failure. Nothing further is promised of the value: the system clock is
/// not guaranteed monotonic.
#[verifier::external_body]
pub fn current_timestamp() -> u64 {
    std::time::SystemTime::now()
        .duration_since(std::time::UNIX_EPOCH)
        .expect("Time went backwards")
        .as_secs()
}

} // verus!
