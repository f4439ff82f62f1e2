//! Payment streams: verified account format and instruction logic of a
//! stake-backed lamport streaming program.

pub mod pubkey;
pub mod codec;
pub mod payment_stream;
pub mod error;
pub mod accounting;
pub mod withdraw;
pub mod unstake_token;
pub mod close_stream;
pub mod create_stream;
pub mod instruction;
pub mod laws;
pub mod history;

pub use crate::close_stream::{close_stream, try_close_stream, CloseAccounts, ClosePlan, ReciverRewardPercentage};
pub use crate::create_stream::{create_stream, try_create_stream, CreateAccounts};
pub use crate::error::{Abort, ClockReading, Failure, StreamError};
pub use crate::instruction::{instruction_for_tag, StreamInstruction};
pub use crate::payment_stream::PaymentStreams;
pub use crate::pubkey::Pubkey;
pub use crate::unstake_token::{try_unstake_tokens, unstake_tokens, UnstakeAccounts, UnstakeAmount, UnstakePlan};
pub use crate::withdraw::{
    credit_lamports, debit_lamports, try_withdraw, withdraw, WithdrawAccounts, WithdrawAmount,
    WithdrawPlan,
};
