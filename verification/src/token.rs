//! Token descriptors and the error kinds of the subscription pipeline.

use vstd::prelude::*;
use crate::address::Address;

verus! {

/// Identity of one validated token contract: resolved exactly once per
/// address per session by the batched validation call.
pub struct TokenDescriptor {
    pub address: Address,
    pub name: String,
    pub symbol: String,
}

/// A terminal error of one subscription request. Each variant is emitted as
/// a single terminal error message and ends the session during setup.
#[derive(Debug)]
pub enum SessionError {
    /// The request carried an empty address list.
    EmptyInput,
    /// An address failed the interface probe or its name or symbol could not
    /// be decoded; the whole request is rejected.
    AddressInvalid(Address),
    /// The batched validation call itself failed.
    Transport,
    /// Opening the live log subscription failed.
    SubscribeFailed,
}

/// The message text that a session error carries to the client.
pub open spec fn error_message(e: SessionError) -> Seq<char> {
    match e {
        SessionError::EmptyInput => "No addresses provided"@,
        SessionError::AddressInvalid(_) => "Invalid address provided"@,
        SessionError::Transport => "Failed to call fetch data"@,
        SessionError::SubscribeFailed => "Failed to subscribe to blocks"@,
    }
}

impl SessionError {
    /// The message emitted to the client for this error.
    pub fn message(&self) -> (m: String)
        ensures
            m@ == error_message(*self),
    {
        match self {
            SessionError::EmptyInput => String::from_str("No addresses provided"),
            SessionError::AddressInvalid(_) => String::from_str("Invalid address provided"),
            SessionError::Transport => String::from_str("Failed to call fetch data"),
            SessionError::SubscribeFailed => String::from_str("Failed to subscribe to blocks"),
        }
    }
}

/// An error of the synchronous single-address lookup, which reuses the same
/// batch pattern outside any session.
#[derive(Debug)]
pub enum SearchError {
    /// The address failed the interface probe.
    InvalidAddress,
    /// The batched call itself failed.
    Transport,
    /// The name result could not be decoded.
    NameDecode,
    /// The symbol result could not be decoded.
    SymbolDecode,
}

/// The message text of a lookup error.
pub open spec fn search_error_message(e: SearchError) -> Seq<char> {
    match e {
        SearchError::InvalidAddress => "Invalid address"@,
        SearchError::Transport => "Failed to call fetch data"@,
        SearchError::NameDecode => "Failed to decode name"@,
        SearchError::SymbolDecode => "Failed to decode symbol"@,
    }
}

impl SearchError {
    /// The message reported for this lookup error.
    pub fn message(&self) -> (m: String)
        ensures
            m@ == search_error_message(*self),
    {
        match self {
            SearchError::InvalidAddress => String::from_str("Invalid address"),
            SearchError::Transport => String::from_str("Failed to call fetch data"),
            SearchError::NameDecode => String::from_str("Failed to decode name"),
            SearchError::SymbolDecode => String::from_str("Failed to decode symbol"),
        }
    }

    /// The HTTP status that the lookup endpoint answers with: a rejected
    /// address is the caller's fault, everything else is the server's.
    pub fn status_code(&self) -> (c: u16)
        ensures
            c == 400 <==> self is InvalidAddress,
            c == 400 || c == 500,
    {
        match self {
            SearchError::InvalidAddress => 400,
            SearchError::Transport => 500,
            SearchError::NameDecode => 500,
            SearchError::SymbolDecode => 500,
        }
    }
}

} // verus!
