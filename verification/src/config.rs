//! The dimensions a game is set up with, and their validation.

use vstd::prelude::*;

verus! {

/// Why a configuration was turned down. There is one reason only: a
/// dimension or the cell size was zero.
#[derive(Clone, Copy, Debug, PartialEq, Eq, Structural)]
pub enum ConfigError {
    InvalidConfiguration,
}

impl ConfigError {
    /// The words in which the error is reported.
    pub fn message(&self) -> (text: &'static str)
        ensures
            text@ == "Invalid dimensions or cell size"@,
    {
        "Invalid dimensions or cell size"
    }
}

/// A board needs at least one row and one column, and its cells a size of at
/// least one pixel.
pub open spec fn valid_dimensions(rows: nat, cols: nat, cell_size: nat) -> bool {
    rows > 0 && cols > 0 && cell_size > 0
}

/// Accepts the dimensions of a board and the size of its cells, or turns them
/// down because one of the three is zero.
pub fn validate_dimensions(rows: usize, cols: usize, cell_size: usize) -> (res: Result<
    (),
    ConfigError,
>)
    ensures
        res is Ok <==> valid_dimensions(rows as nat, cols as nat, cell_size as nat),
        res is Err ==> res == Err::<(), ConfigError>(ConfigError::InvalidConfiguration),
{
    if rows == 0 || cols == 0 || cell_size == 0 {
        Err(ConfigError::InvalidConfiguration)
    } else {
        Ok(())
    }
}

} // verus!
