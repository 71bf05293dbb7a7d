use vstd::prelude::*;

verus! {

/// Opaque, chain-assigned identifier of a client; immutable once created.
#[derive(Debug, PartialEq, Eq)]
pub struct ClientId {
    pub bytes: Vec<u8>,
}

impl View for ClientId {
    type V = Seq<u8>;

    open spec fn view(&self) -> Seq<u8> {
        self.bytes@
    }
}

impl ClientId {
    pub fn new(bytes: Vec<u8>) -> (r: ClientId)
        ensures
            r@ == bytes@,
    {
        ClientId { bytes }
    }
}

/// Opaque, chain-assigned identifier of a connection; immutable once created.
#[derive(Debug, PartialEq, Eq)]
pub struct ConnectionId {
    pub bytes: Vec<u8>,
}

impl View for ConnectionId {
    type V = Seq<u8>;

    open spec fn view(&self) -> Seq<u8> {
        self.bytes@
    }
}

impl ConnectionId {
    pub fn new(bytes: Vec<u8>) -> (r: ConnectionId)
        ensures
            r@ == bytes@,
    {
        ConnectionId { bytes }
    }
}

/// Opaque, chain-assigned identifier of a channel; immutable once created.
#[derive(Debug, PartialEq, Eq)]
pub struct ChannelId {
    pub bytes: Vec<u8>,
}

impl View for ChannelId {
    type V = Seq<u8>;

    open spec fn view(&self) -> Seq<u8> {
        self.bytes@
    }
}

impl ChannelId {
    pub fn new(bytes: Vec<u8>) -> (r: ChannelId)
        ensures
            r@ == bytes@,
    {
        ChannelId { bytes }
    }
}

/// Opaque, chain-assigned identifier of a port; immutable once created.
#[derive(Debug, PartialEq, Eq)]
pub struct PortId {
    pub bytes: Vec<u8>,
}

impl View for PortId {
    type V = Seq<u8>;

    open spec fn view(&self) -> Seq<u8> {
        self.bytes@
    }
}

impl PortId {
    pub fn new(bytes: Vec<u8>) -> (r: PortId)
        ensures
            r@ == bytes@,
    {
        PortId { bytes }
    }
}

} // verus!
