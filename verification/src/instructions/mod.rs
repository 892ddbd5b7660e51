//! The program's instructions. Each context holds, as plain values, what
//! its instruction reads from its accounts; each `handler` decides the
//! instruction's outcome.

pub mod deposit;
pub mod initialize_amm;
pub mod initialize_pool;
pub mod set_paused;
pub mod swap;
pub mod transfer_admin;
pub mod update_fee;
pub mod withdraw;
