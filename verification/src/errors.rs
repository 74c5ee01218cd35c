//! The failures a simulation request can end with.

use vstd::prelude::*;

verus! {

/// Why a request was turned down or aborted.
#[derive(Debug, Clone, PartialEq, Eq)]
pub enum SimulationError {
    /// Neither the configured table nor the built-in one knows an endpoint for the chain.
    NoURLForChainId,
    /// The simulated chain reports another chain identifier than the request names.
    IncorrectChainId,
    /// A bundle mixes transactions of several chains.
    MultipleChainIds,
    /// A transaction asks for a block that lies behind the bundle or the chain, or names none
    /// although the chain would have to move.
    InvalidBlockNumbers,
    /// No live session has the given identifier.
    StateNotFound,
    /// A numeric field that starts with `0x` is not a hexadecimal number of at most 256 bits.
    FromHexError,
    /// A numeric field is not a decimal number of at most 256 bits.
    FromDecStrError,
    /// The execution engine reported a failure; the text is the engine's own.
    EvmError(String),
}

/// Why an environment gives no settings.
#[derive(Debug, Clone, Copy, PartialEq, Eq)]
pub enum ConfigError {
    /// `PORT` is set and does not write a number of 16 bits.
    InvalidPort,
    /// `MAX_REQUEST_SIZE` is set and does not write a number of 64 bits, or 1024 times the
    /// number does not fit in 64 bits.
    InvalidMaxRequestSize,
}

} // verus!
