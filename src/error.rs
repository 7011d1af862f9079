use vstd::prelude::*;
use crate::address::AddressError;

verus! {

/// The failures that the greeting client reports to its caller.
#[derive(Debug, Clone, PartialEq, Eq)]
pub enum Error {
    /// The local configuration lacks a field or cannot be used.
    InvalidConfig(String),
    /// The local configuration is not well-formed YAML.
    ConfigParse,
    /// The local configuration holds this many YAML documents instead of one.
    DocumentCount(usize),
    /// The greeting account's address could not be derived.
    Address(AddressError),
    /// The program's account is not marked executable.
    ProgramNotExecutable,
    /// The greeting account holds this many bytes instead of the fixed state size.
    InvalidAccountData(usize),
    /// The balance requirement does not fit in 64 bits.
    BalanceOverflow,
}

} // verus!
