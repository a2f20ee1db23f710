//! Network packets, read layer by layer.
use vstd::prelude::*;

pub mod address;
pub mod capture;
pub mod dns;
pub mod http;
pub mod tls;

verus! {

/// A layer of the OSI model.
#[derive(Debug, Clone, Copy, PartialEq, Eq, Structural)]
pub enum Layer {
    DataLink,
    Network,
    Transport,
    Application,
}

impl Layer {
    /// The name of the layer.
    pub open spec fn name(self) -> Seq<char> {
        match self {
            Layer::DataLink => "data_link"@,
            Layer::Network => "network"@,
            Layer::Transport => "transport"@,
            Layer::Application => "application"@,
        }
    }

    /// The name of the layer.
    pub fn to_string(&self) -> (r: String)
        ensures
            r@ == self.name(),
    {
        match self {
            Layer::DataLink => String::from_str("data_link"),
            Layer::Network => String::from_str("network"),
            Layer::Transport => String::from_str("transport"),
            Layer::Application => String::from_str("application"),
        }
    }
}

/// Errors in reading packets.
#[derive(Debug, Clone, PartialEq, Eq)]
pub enum Error {
    /// The packet uses a protocol of that layer that is not read.
    UnimplementedError { layer: String, protocol: String },
    /// The packet is too short or malformed for its protocol.
    PacketParsing,
    /// The payload is not a message of the application protocol tried.
    NomParsing,
}

} // verus!
