//! Core of a native value-transfer program: binary instruction codec,
//! client-side instruction encoder, and the host-side dispatch, account
//! validation, and transfer-execution pipeline.

pub mod accounts;
pub mod codec;
pub mod ident;
pub mod instruction;
