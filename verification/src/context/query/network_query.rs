//! Filters over the tracked network connections.
use vstd::prelude::*;

use crate::context::identity::ProcessKey;
use crate::context::models::network::{NetworkConnection, SocketProtocol};
use crate::context::registries::network_registry::{
    lists_connections, resolve_connections, ConnectionScope,
};
use crate::context::system::SystemContext;

verus! {

/// Filters over the connections of a context.
pub struct NetworkQuery<'a> {
    /// The context queried.
    pub ctx: &'a SystemContext,
}

impl<'a> NetworkQuery<'a> {
    /// Filters over the connections of `ctx`.
    pub fn new(ctx: &'a SystemContext) -> (q: Self)
        ensures
            q.ctx == ctx,
    {
        NetworkQuery { ctx }
    }

    /// The tracked connections registered for the process, in registration order.
    pub fn by_process(&self, proc_key: ProcessKey) -> (v: Vec<&'a NetworkConnection>)
        ensures
            v@.unref() == (if self.ctx.network.owned().contains_key(proc_key.0) {
                resolve_connections(self.ctx.network.owned()[proc_key.0], self.ctx.network.conns())
            } else {
                Seq::empty()
            }),
    {
        self.ctx.network.process_connections(proc_key)
    }

    /// The tracked connections to this remote port.
    pub fn by_remote_port(&self, port: u16) -> (v: Vec<&'a NetworkConnection>)
        ensures
            lists_connections(self.ctx.network.conns(), ConnectionScope::RemotePort(port), v@.unref()),
    {
        self.ctx.network.select_connections(ConnectionScope::RemotePort(port))
    }

    /// The tracked connections over this protocol.
    pub fn by_protocol(&self, protocol: SocketProtocol) -> (v: Vec<&'a NetworkConnection>)
        ensures
            lists_connections(self.ctx.network.conns(), ConnectionScope::Protocol(protocol), v@.unref()),
    {
        self.ctx.network.select_connections(ConnectionScope::Protocol(protocol))
    }

    /// The tracked connections whose remote address is not a loopback address.
    pub fn outbound_external(&self) -> (v: Vec<&'a NetworkConnection>)
        ensures
            lists_connections(self.ctx.network.conns(), ConnectionScope::External, v@.unref()),
    {
        self.ctx.network.select_connections(ConnectionScope::External)
    }
}

} // verus!
