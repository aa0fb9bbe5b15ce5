//! Registry of network connections, indexed by owning process.
use std::collections::HashMap;
use vstd::prelude::*;

use crate::context::identity::{ConnectionKey, ProcessKey};
use crate::context::models::network::{is_loopback_ip, NetworkConnection, SocketProtocol};
use crate::helpers::keyed::keys_of;

verus! {

broadcast use vstd::std_specs::hash::group_hash_axioms;

/// The tracked connections among `keys`, in order.
pub open spec fn resolve_connections(keys: Seq<ConnectionKey>, conns: Map<u64, NetworkConnection>) -> Seq<NetworkConnection> {
    keys.filter(|k: ConnectionKey| conns.contains_key(k.0)).map_values(|k: ConnectionKey| conns[k.0])
}

/// Which connections a connection query selects.
#[derive(Debug, Clone, Copy, PartialEq, Eq, Structural)]
pub enum ConnectionScope {
    /// Every connection.
    All,
    /// Connections to this remote port.
    RemotePort(u16),
    /// Connections over this protocol.
    Protocol(SocketProtocol),
    /// Connections whose remote address is not a loopback address.
    External,
}

/// The connection falls within the scope.
pub open spec fn in_connection_scope(scope: ConnectionScope, c: NetworkConnection) -> bool {
    match scope {
        ConnectionScope::All => true,
        ConnectionScope::RemotePort(p) => c.remote_addr.port == p,
        ConnectionScope::Protocol(p) => c.protocol == p,
        ConnectionScope::External => !is_loopback_ip(c.remote_addr.ip),
    }
}

/// For each raw key of `ks` in order, the connection under it when in scope.
pub open spec fn connections_among(m: Map<u64, NetworkConnection>, ks: Seq<u64>, scope: ConnectionScope) -> Seq<
    NetworkConnection,
>
    decreases ks.len(),
{
    if ks.len() == 0 {
        Seq::empty()
    } else {
        let rest = connections_among(m, ks.drop_last(), scope);
        let k = ks.last();
        if m.contains_key(k) && in_connection_scope(scope, m[k]) {
            rest.push(m[k])
        } else {
            rest
        }
    }
}

/// `v` holds, for the keys of `m` taken once each in some order, the connections in scope.
pub open spec fn lists_connections(
    m: Map<u64, NetworkConnection>,
    scope: ConnectionScope,
    v: Seq<NetworkConnection>,
) -> bool {
    exists|ks: Seq<u64>|
        #![trigger connections_among(m, ks, scope)]
        ks.no_duplicates() && ks.to_set() == m.dom() && v == connections_among(m, ks, scope)
}

/// Registry of network connections.
pub struct NetworkRegistry {
    connections: HashMap<u64, NetworkConnection>,
    process_connections: HashMap<u64, Vec<ConnectionKey>>,
}

impl NetworkRegistry {
    /// Tracked connections by raw key.
    pub closed spec fn conns(&self) -> Map<u64, NetworkConnection> {
        self.connections@
    }

    /// Connection keys registered for each process, in registration order.
    pub closed spec fn owned(&self) -> Map<u64, Seq<ConnectionKey>> {
        self.process_connections@.map_values(|v: Vec<ConnectionKey>| v@)
    }

    /// An empty registry.
    pub fn new() -> (r: Self)
        ensures
            r.conns() == Map::<u64, NetworkConnection>::empty(),
            r.owned() == Map::<u64, Seq<ConnectionKey>>::empty(),
    {
        let r = NetworkRegistry { connections: HashMap::new(), process_connections: HashMap::new() };
        assert(r.owned() =~= Map::<u64, Seq<ConnectionKey>>::empty());
        r
    }

    /// Registers a connection and appends it to its owner's list. Returns its key.
    pub fn register_connection(&mut self, conn: NetworkConnection) -> (k: ConnectionKey)
        ensures
            k == conn.key,
            final(self).conns() == old(self).conns().insert(conn.key.0, conn),
            final(self).owned() == old(self).owned().insert(
                conn.owner_process.0,
                if old(self).owned().contains_key(conn.owner_process.0) {
                    old(self).owned()[conn.owner_process.0].push(conn.key)
                } else {
                    seq![conn.key]
                },
            ),
    {
        let key = conn.key;
        let owner = conn.owner_process.0;
        self.connections.insert(key.0, conn);
        let mut list = match self.process_connections.remove(&owner) {
            Some(l) => l,
            None => Vec::new(),
        };
        let ghost before = list@;
        list.push(key);
        self.process_connections.insert(owner, list);
        proof {
            assert(self.owned() =~= old(self).owned().insert(
                owner,
                if old(self).owned().contains_key(owner) {
                    old(self).owned()[owner].push(key)
                } else {
                    seq![key]
                },
            ));
        }
        key
    }

    /// The tracked connection with this key.
    pub fn get_by_key(&self, key: ConnectionKey) -> (r: Option<&NetworkConnection>)
        ensures
            r == (if self.conns().contains_key(key.0) {
                Some(&self.conns()[key.0])
            } else {
                None
            }),
    {
        self.connections.get(&key.0)
    }

    /// The tracked connections registered for the process, in registration order.
    pub fn process_connections(&self, proc_key: ProcessKey) -> (v: Vec<&NetworkConnection>)
        ensures
            v@.unref() == (if self.owned().contains_key(proc_key.0) {
                resolve_connections(self.owned()[proc_key.0], self.conns())
            } else {
                Seq::empty()
            }),
    {
        let keys = match self.process_connections.get(&proc_key.0) {
            Some(k) => k,
            None => {
                let v: Vec<&NetworkConnection> = Vec::new();
                assert(v@.unref() =~= Seq::<NetworkConnection>::empty());
                return v;
            },
        };
        let mut v: Vec<&NetworkConnection> = Vec::new();
        let n = keys.len();
        let mut i: usize = 0;
        while i < n
            invariant
                n == keys@.len(),
                i <= n,
                v@.unref() == resolve_connections(keys@.take(i as int), self.conns()),
            decreases n - i,
        {
            let k = keys[i];
            let ghost prev = v@;
            proof {
                reveal(Seq::filter);
                assert(keys@.take(i + 1).drop_last() =~= keys@.take(i as int));
                assert(keys@.take(i + 1).last() == k);
            }
            match self.connections.get(&k.0) {
                Some(c) => {
                    v.push(c);
                    assert(v@.unref() =~= prev.unref().push(*c));
                    assert(resolve_connections(keys@.take(i + 1), self.conns()) =~= resolve_connections(
                        keys@.take(i as int),
                        self.conns(),
                    ).push(*c));
                },
                None => {
                    assert(resolve_connections(keys@.take(i + 1), self.conns()) =~= resolve_connections(
                        keys@.take(i as int),
                        self.conns(),
                    ));
                },
            }
            i = i + 1;
        }
        assert(keys@.take(n as int) =~= keys@);
        v
    }

    /// The tracked connections registered for the process, in registration order.
    pub fn get_process_connections(&self, proc_key: ProcessKey) -> (v: Vec<&NetworkConnection>)
        ensures
            v@.unref() == (if self.owned().contains_key(proc_key.0) {
                resolve_connections(self.owned()[proc_key.0], self.conns())
            } else {
                Seq::empty()
            }),
    {
        self.process_connections(proc_key)
    }

    /// The tracked connections in scope, by reference.
    pub fn select_connections(&self, scope: ConnectionScope) -> (v: Vec<&NetworkConnection>)
        ensures
            lists_connections(self.conns(), scope, v@.unref()),
    {
        let ks = keys_of(&self.connections);
        let n = ks.len();
        let mut v: Vec<&NetworkConnection> = Vec::new();
        let mut i: usize = 0;
        while i < n
            invariant
                n == ks@.len(),
                i <= n,
                v@.unref() == connections_among(self.conns(), ks@.take(i as int), scope),
            decreases n - i,
        {
            let k = ks[i];
            proof {
                assert(ks@.take(i + 1).drop_last() =~= ks@.take(i as int));
                assert(ks@.take(i + 1).last() == k);
            }
            match self.connections.get(&k) {
                Some(c) => {
                    let keep = match scope {
                        ConnectionScope::All => true,
                        ConnectionScope::RemotePort(p) => c.remote_addr.port() == p,
                        ConnectionScope::Protocol(p) => c.protocol == p,
                        ConnectionScope::External => !c.remote_addr.ip.is_loopback(),
                    };
                    if keep {
                        let ghost prev = v@;
                        v.push(c);
                        assert(v@.unref() =~= prev.unref().push(*c));
                    }
                },
                None => {},
            }
            i = i + 1;
        }
        assert(ks@.take(n as int) =~= ks@);
        v
    }

    /// All tracked connections, by reference.
    pub fn all_connections(&self) -> (v: Vec<&NetworkConnection>)
        ensures
            lists_connections(self.conns(), ConnectionScope::All, v@.unref()),
    {
        self.select_connections(ConnectionScope::All)
    }

    /// Number of tracked connections.
    pub fn len(&self) -> (n: usize)
        ensures
            n == self.conns().len(),
    {
        self.connections.len()
    }

    /// No connection is tracked.
    pub fn is_empty(&self) -> (b: bool)
        ensures
            b == (self.conns().len() == 0),
    {
        self.connections.len() == 0
    }

    /// Number of tracked connections.
    pub fn total_count(&self) -> (n: usize)
        ensures
            n == self.conns().len(),
    {
        self.connections.len()
    }
}

} // verus!
