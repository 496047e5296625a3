//! Request catalogue, exception codes, error model and coil state of a Modbus master.
pub mod coil;
pub mod error;
pub mod exception;
pub mod function;
pub mod mei;

pub use coil::Coil;
pub use error::{Error, Reason};
pub use exception::ExceptionCode;
pub use function::Function;

use vstd::prelude::*;

verus! {

/// Result type used to notify success or failure in communication
pub type Result<T> = std::result::Result<T, Error>;

/// Sum of two sizes. The caller rules out overflow.
pub fn add(left: usize, right: usize) -> (sum: usize)
    requires
        left + right <= usize::MAX,
    ensures
        sum == left + right,
{
    left + right
}

} // verus!
