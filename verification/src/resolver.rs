//! The address resolver: from a host name or literal address and a port to
//! a socket address.
//!
//! A literal address needs no lookup. For a host name the host looks up
//! `name:port`, and the first address found is the one that is used.

use vstd::prelude::*;
use vstd::string::StringExecFns;
use crate::base::{Error, ErrorView};
use crate::notice::{decimal_text, to_decimal};

verus! {

/// An internet address, by its number.
#[derive(Clone, Copy, Debug, PartialEq, Eq, Structural)]
pub enum IpAddress {
    /// An address of version 4: its four octets, the first one highest.
    V4(u32),
    /// An address of version 6: its sixteen octets, the first one highest.
    V6(u128),
}

/// An internet address and a port.
#[derive(Clone, Copy, Debug, PartialEq, Eq, Structural)]
pub struct SocketAddress {
    pub ip: IpAddress,
    pub port: u16,
}

/// What the resolver makes of an address before any lookup.
#[derive(Clone, Debug, PartialEq, Eq)]
pub enum Resolution {
    /// The address is a literal: this is the socket address.
    Resolved(SocketAddress),
    /// The address is a name: this is what the host looks up.
    Lookup(String),
}

/// What the contracts see of a [`Resolution`].
pub enum ResolutionView {
    Resolved(SocketAddress),
    Lookup(Seq<char>),
}

impl View for Resolution {
    type V = ResolutionView;

    open spec fn view(&self) -> ResolutionView {
        match self {
            Resolution::Resolved(found) => ResolutionView::Resolved(*found),
            Resolution::Lookup(query) => ResolutionView::Lookup(query@),
        }
    }
}

/// What the resolver makes of `address` and `port`, where `literal` is the
/// address that `address` is the literal of, if it is one: that address
/// with the port or, for a name, the text to look up, which is the name, a
/// colon and the port.
pub open spec fn resolution_model(
    address: Seq<char>,
    port: u16,
    literal: Option<IpAddress>,
) -> ResolutionView {
    match literal {
        Some(ip) => ResolutionView::Resolved(SocketAddress { ip, port }),
        None => ResolutionView::Lookup(address + ":"@ + decimal_text(port as nat)),
    }
}

/// Resolves what needs no lookup. `literal` is the address that `address`
/// is the literal of, if it is one: it is then returned with the port.
/// Else the result is the text to look up.
pub fn create_socket_addr(
    address: &str,
    port: u16,
    literal: Option<IpAddress>,
) -> (resolution: Resolution)
    ensures
        resolution@ == resolution_model(address@, port, literal),
{
    match literal {
        Some(ip) => Resolution::Resolved(SocketAddress { ip, port }),
        None => {
            let mut query = address.to_owned();
            query.append(":");
            let number = to_decimal(port as usize);
            query.append(number.as_str());
            Resolution::Lookup(query)
        },
    }
}

/// What a lookup comes to: the first address found; the failure to find
/// any; or the failure of the lookup, with the words of the host.
pub open spec fn lookup_model(found: Result<Seq<SocketAddress>, Seq<char>>) -> Result<
    SocketAddress,
    ErrorView,
> {
    match found {
        Ok(addresses) => if addresses.len() > 0 {
            Ok(addresses[0])
        } else {
            Err(ErrorView::Msg("No addresses found"@))
        },
        Err(words) => Err(ErrorView::Msg("Failed to resolve address: "@ + words)),
    }
}

/// Picks the socket address from the outcome of a lookup.
pub fn first_address(found: Result<Vec<SocketAddress>, String>) -> (picked: Result<
    SocketAddress,
    Error,
>)
    ensures
        match picked {
            Ok(address) => lookup_model(
                match found {
                    Ok(list) => Ok(list@),
                    Err(words) => Err(words@),
                },
            ) == Ok::<SocketAddress, ErrorView>(address),
            Err(e) => lookup_model(
                match found {
                    Ok(list) => Ok(list@),
                    Err(words) => Err(words@),
                },
            ) == Err::<SocketAddress, ErrorView>(e@),
        },
{
    match found {
        Ok(list) => {
            if list.len() > 0 {
                Ok(list[0])
            } else {
                Err(Error::Msg("No addresses found".to_owned()))
            }
        },
        Err(words) => {
            let mut message = "Failed to resolve address: ".to_owned();
            message.append(words.as_str());
            Err(Error::Msg(message))
        },
    }
}

} // verus!
