//! Opcodes of EIP-8141 frame transactions: APPROVE (0xAA), TXPARAMLOAD (0xB0),
//! TXPARAMSIZE (0xB1) and TXPARAMCOPY (0xB2), each with a contract that fixes
//! the machine and the transaction context it leaves behind.
pub mod word;
pub mod primitives;
pub mod gas;
pub mod stack;
pub mod memory;
pub mod interpreter;
pub mod context;
pub mod params;
pub mod frame_tx;
pub mod laws;
pub mod field_laws;

pub use context::{Context, FrameInfo, FrameTxContext, FrameTxHost};
pub use frame_tx::{approve, txparamcopy, txparamload, txparamsize};
pub use gas::{Gas, GasParams};
pub use interpreter::{InstructionContext, InstructionResult, Interpreter, InterpreterResult};
pub use primitives::{Address, B256};
pub use word::U256;
