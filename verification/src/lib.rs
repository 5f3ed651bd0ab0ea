//! The decisions of a command line wallet: what each command does step by step, which name and
//! which place a wallet gets, how a blockchain is reached, and how a typed line falls into words.

pub mod blockchain;
pub mod blockchain_laws;
pub mod command_laws;
pub mod descriptor;
pub mod error;
pub mod home;
pub mod naming;
pub mod naming_laws;
pub mod opts;
pub mod render;
pub mod session;
pub mod session_laws;
pub mod split;
pub mod split_laws;
pub mod text;
