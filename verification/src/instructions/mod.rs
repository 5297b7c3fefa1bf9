//! The pool's instructions, each as a transition of the accounts it reads
//! and writes. Token transfers, mints and burns are carried out by the
//! program around the library with the amounts that these transitions fix.

pub mod add_rewards;
pub mod initialize_pool;
pub mod stake;
pub mod unstake;
pub mod withdraw;
