use vstd::prelude::*;

verus! {

/// Why a dispatch pool could not be built.
#[derive(PartialEq, Eq, Structural, Clone, Copy, Debug)]
pub enum PoolError {
    /// A pool needs at least one worker.
    ZeroSize,
}

/// The number of workers for a dispatch pool asked to have `size` of them.
pub fn checked_pool_size(size: usize) -> (r: Result<usize, PoolError>)
    ensures
        size == 0 ==> r == Err::<usize, PoolError>(PoolError::ZeroSize),
        size > 0 ==> r == Ok::<usize, PoolError>(size),
{
    if size < 1 {
        Err(PoolError::ZeroSize)
    } else {
        Ok(size)
    }
}

} // verus!
