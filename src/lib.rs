//! Process orchestration for a configuration deployment tool: command
//! descriptions, their execution steps, the build pipeline and the
//! rebuild workflow, each stated as a decision over plain values that a
//! thin driver carries out.
use vstd::prelude::*;

pub mod exit;
pub mod command;
pub mod pipeline;
pub mod home;
pub mod rebuild;

verus! {

/// A subcommand that can be carried out.
pub trait NHRunnable {
    /// Why carrying it out may fail.
    type Error;

    fn run(&self) -> Result<(), Self::Error>;
}

} // verus!
