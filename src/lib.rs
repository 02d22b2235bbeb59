//! Core of a cross-chain atomic swap: the swap session record, its time
//! schedule, the two-party multisig builder, the canonical transaction helpers
//! and the state machine that drives a session forward.

mod error;
pub mod scalar;
pub mod order;
pub mod slate;
pub mod multisig;
pub mod message;
pub mod fsm;
pub mod swap;
pub mod codec;
pub mod foreign;

pub use error::ErrorKind;
pub use scalar::signature_as_secret;
pub use slate::{tx_add_input, tx_add_output, Slate};
pub use swap::Swap;
pub use foreign::{
    check_version, get_cur_time, get_receive_account, reset_testing_cur_time, set_receive_account,
    set_testing_cur_time, TxWrapper,
};
