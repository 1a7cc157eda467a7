//! Hardware-independent contracts for IP networking on small devices: a
//! fixed-capacity address model, TCP and DNS capability traits, and the
//! error taxonomy shared by every driver.
use vstd::prelude::*;

pub mod addr;
pub mod dns;
pub mod tcp;

use crate::dns::{Dns, DnsError};
use crate::tcp::{TcpError, TcpStack};

verus! {

/// Gathers one driver's TCP and DNS capabilities behind a single handle, so
/// that protocol code depends on one object.
pub trait IpNetworkDriver {
    type TcpSocket;
    type TcpError: Into<TcpError> + core::fmt::Debug;
    type DnsError: Into<DnsError> + core::fmt::Debug;
    /// The TCP capability, over this driver's socket and error types.
    type Tcp: TcpStack<TcpSocket = Self::TcpSocket, Error = Self::TcpError>;
    /// The DNS capability, over this driver's error type.
    type Dns: Dns<Error = Self::DnsError>;

    fn tcp(&self) -> &Self::Tcp;

    fn dns(&self) -> &Self::Dns;
}

} // verus!
