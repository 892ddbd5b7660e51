//! A constant-product automated market maker: the rules of its pools and of
//! their configuration, stated and proved with Verus.

pub mod error;
pub mod instructions;
pub mod key;
pub mod laws;
pub mod math;
pub mod outcomes;
pub mod quote;
pub mod state;

pub use error::ErrorCode;
pub use instructions::deposit::Deposit;
pub use instructions::initialize_amm::{InitializeAmm, InitializeAmmBumps};
pub use instructions::initialize_pool::{InitializePool, InitializePoolBumps};
pub use instructions::set_paused::SetPaused;
pub use instructions::swap::Swap;
pub use instructions::transfer_admin::TransferAdmin;
pub use instructions::update_fee::UpdateFee;
pub use instructions::withdraw::Withdraw;
pub use key::Pubkey;
pub use state::{AmmConfig, PoolConfig};
pub use quote::{DepositQuote, SwapQuote, WithdrawQuote};
