//! What holds of every input: the laws of the dispatcher and of the
//! matchers, each proved from the definitions that the contracts use.

pub mod case;
pub mod order;
pub mod origins;
pub mod validity;
pub mod whitespace;
