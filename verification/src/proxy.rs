//! The routing decisions of a proxy that connects many clients to one Qu
//! mixer: every client's data goes to the mixer, and the mixer's data goes
//! to every connected client. The network work is done by the caller, which
//! hands each event to [`ProxyState::handle`] and performs the action that
//! comes back.

use vstd::prelude::*;
use std::collections::HashSet;
use vstd::std_specs::iter::IteratorSpec;

verus! {

broadcast use vstd::std_specs::hash::group_hash_axioms;

/// Something that happened on one of the proxy's connections.
pub enum ProxyEvent {
    /// A client connected.
    AddClient,
    /// A client sent data.
    ClientData { id: u64, data: Vec<u8> },
    /// A client's connection closed.
    ClientDisconnected { id: u64 },
    /// The mixer sent data.
    QuData { data: Vec<u8> },
    /// The mixer's connection closed.
    QuDisconnected,
}

/// What the caller is to do next.
pub enum ProxyAction {
    /// Keep the new client's connection under `id` and start reading it.
    RegisterClient { id: u64 },
    /// Write `data` to the mixer.
    WriteToQu { data: Vec<u8> },
    /// Drop the connection of client `id`.
    RemoveClient { id: u64 },
    /// Write `data` to each of the clients `clients`.
    Broadcast { clients: Vec<u64>, data: Vec<u8> },
    /// Stop the proxy.
    Stop,
}

/// The clients connected to the proxy, by ID, and the next client ID to
/// give out. (The caller keeps each client's connection under its ID.)
pub struct ProxyState {
    next_client_id: u64,
    clients: HashSet<u64>,
}

/// The value of a [`ProxyState`].
pub struct ProxyModel {
    pub next_client_id: u64,
    pub clients: Set<u64>,
}

impl View for ProxyState {
    type V = ProxyModel;

    closed spec fn view(&self) -> ProxyModel {
        ProxyModel { next_client_id: self.next_client_id, clients: self.clients@ }
    }
}

/// Whether a proxy state is consistent: finitely many clients, every ID
/// given out below the next one.
pub open spec fn proxy_wf(m: ProxyModel) -> bool {
    &&& m.clients.finite()
    &&& forall|id: u64| #[trigger] m.clients.contains(id) ==> id < m.next_client_id
}

/// The state after client `id` is removed.
pub open spec fn removed(m: ProxyModel, id: u64) -> ProxyModel {
    ProxyModel { clients: m.clients.remove(id), ..m }
}

/// Whether `ids` lists the clients `clients`, each once, in some order.
pub open spec fn lists_clients(ids: Seq<u64>, clients: Set<u64>) -> bool {
    &&& ids.no_duplicates()
    &&& ids.to_set() == clients
}

/// The connected clients, each once, in the order the set yields them.
fn client_list(clients: &HashSet<u64>) -> (res: Vec<u64>)
    ensures
        lists_clients(res@, clients@),
{
    let mut out: Vec<u64> = Vec::new();
    let ghost items = vstd::std_specs::hash::spec_hash_keys_iter(clients).remaining();
    for id in it: clients.iter()
        invariant
            it.seq() == items,
            out@ == items.take(it.index() as int).map_values(|r: &u64| *r),
    {
        out.push(*id);
        assert(out@ =~= items.take(it.index() + 1).map_values(|r: &u64| *r));
    }
    assert(out@ =~= items.map_values(|r: &u64| *r));
    proof {
        vstd::std_specs::hash::axiom_spec_hash_keys_iter(clients);
        assert(items.unref() =~= items.map_values(|r: &u64| *r));
    }
    out
}

impl ProxyState {
    /// A proxy with no client and the first client ID zero.
    pub fn new() -> (res: Self)
        ensures
            res@.next_client_id == 0,
            res@.clients == Set::<u64>::empty(),
            proxy_wf(res@),
    {
        ProxyState { next_client_id: 0, clients: HashSet::new() }
    }

    /// The ID that the next client will get.
    pub fn next_client_id(&self) -> (res: u64)
        ensures
            res == self@.next_client_id,
    {
        self.next_client_id
    }

    /// The IDs of the connected clients, each once, in no particular order.
    pub fn clients(&self) -> (res: Vec<u64>)
        ensures
            lists_clients(res@, self@.clients),
    {
        client_list(&self.clients)
    }

    /// Handles one event and returns the action to perform: a new client
    /// gets the next ID; a client's data goes to the mixer; a closed client
    /// is removed; the mixer's data goes to every connected client, each
    /// once; a closed mixer stops the proxy.
    pub fn handle(&mut self, event: ProxyEvent) -> (action: ProxyAction)
        requires
            proxy_wf(old(self)@),
            event is AddClient ==> old(self)@.next_client_id < u64::MAX,
        ensures
            proxy_wf(final(self)@),
            match event {
                ProxyEvent::AddClient => {
                    &&& action == ProxyAction::RegisterClient { id: old(self)@.next_client_id }
                    &&& final(self)@.next_client_id == old(self)@.next_client_id + 1
                    &&& final(self)@.clients == old(self)@.clients.insert(old(self)@.next_client_id)
                },
                ProxyEvent::ClientData { id, data } => {
                    &&& action == ProxyAction::WriteToQu { data }
                    &&& final(self)@ == old(self)@
                },
                ProxyEvent::ClientDisconnected { id } => {
                    &&& action == ProxyAction::RemoveClient { id }
                    &&& final(self)@ == removed(old(self)@, id)
                },
                ProxyEvent::QuData { data } => {
                    &&& action matches ProxyAction::Broadcast { clients, data: d } && lists_clients(
                        clients@,
                        old(self)@.clients,
                    ) && d == data
                    &&& final(self)@ == old(self)@
                },
                ProxyEvent::QuDisconnected => {
                    &&& action == ProxyAction::Stop
                    &&& final(self)@ == old(self)@
                },
            },
    {
        match event {
            ProxyEvent::AddClient => {
                let id = self.next_client_id;
                self.next_client_id = self.next_client_id + 1;
                self.clients.insert(id);
                ProxyAction::RegisterClient { id }
            },
            ProxyEvent::ClientData { id, data } => ProxyAction::WriteToQu { data },
            ProxyEvent::ClientDisconnected { id } => {
                self.clients.remove(&id);
                ProxyAction::RemoveClient { id }
            },
            ProxyEvent::QuData { data } => {
                let clients = client_list(&self.clients);
                ProxyAction::Broadcast { clients, data }
            },
            ProxyEvent::QuDisconnected => ProxyAction::Stop,
        }
    }
}

/// A client ID is never given out twice: the new client's ID is not that of
/// any client connected before, and after the client leaves the ID stays
/// unused, since the next ID only grows.
pub proof fn client_ids_are_fresh(m: ProxyModel)
    requires
        proxy_wf(m),
    ensures
        !m.clients.contains(m.next_client_id),
{
}

/// After a client disconnects it gets no more of the mixer's data, and the
/// other clients stay connected.
pub proof fn disconnected_client_is_dropped(m: ProxyModel, id: u64, other: u64)
    requires
        proxy_wf(m),
    ensures
        !removed(m, id).clients.contains(id),
        other != id ==> removed(m, id).clients.contains(other) == m.clients.contains(other),
        proxy_wf(removed(m, id)),
{
}

} // verus!
