use vstd::prelude::*;

verus! {

/// The most threads that the scheduler runs.
pub const MAX_THREADS: usize = 8;

/// The number of threads the scheduler runs when the machine offers
/// `available`: that number within `1..=8`, or 1 when it is unknown.
pub fn thread_count(available: Option<usize>) -> (res: usize)
    ensures
        res == match available {
            Some(n) => if n < 1 { 1 } else if n > 8 { 8 } else { n },
            None => 1,
        },
        1 <= res <= MAX_THREADS,
{
    let n = match available {
        Some(n) => n,
        None => 1,
    };
    if n < 1 {
        1
    } else if n > MAX_THREADS {
        MAX_THREADS
    } else {
        n
    }
}

/// Whether the Lua threads run on a single user thread beside the window
/// thread: when only one thread is available, or when that is forced.
pub fn runs_single_threaded(threads: usize, always_single: bool) -> (res: bool)
    ensures
        res == (threads == 1 || always_single),
{
    threads == 1 || always_single
}

} // verus!
