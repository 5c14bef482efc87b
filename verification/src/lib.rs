//! Instruction dispatch of the stake program: which stake-account operation an
//! instruction asks for, with which accounts, sysvars and authorities, or which
//! error it is refused with.

pub mod pubkey;
pub mod ids;
pub mod config;
pub mod decode;
pub mod model;
pub mod instruction_account_indices;
pub mod context;
pub mod operation;
pub mod processor;
pub mod laws;
