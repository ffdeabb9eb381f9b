//! A minimal calculator program for an account-based runtime.
//!
//! One entry point reads an operation selector and two byte operands from
//! an instruction buffer, checks that the first supplied account is owned
//! by the invoking program, computes a sum, a wrapped difference or zero,
//! and writes the 32-bit result back over the account's four-byte storage.

pub mod error;
pub mod instruction;
pub mod processor;
pub mod pubkey;
pub mod state;

pub use error::ProgramError;
pub use instruction::CalculatorInstructions;
pub use processor::Account;
pub use processor::process_instruction;
pub use pubkey::Pubkey;
pub use state::CalculatorAccount;
