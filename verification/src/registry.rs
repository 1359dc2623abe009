//! The connection registry: the single owner of the presence map.
//!
//! The map takes an account to the ordered list of its open connections. An
//! account has an entry exactly while at least one of its connections is
//! listed. The registry is driven one command at a time; for each command
//! [`Registry::process`] changes the map and names what the driving loop has
//! to do: start a sender, hand an event to some senders, start the cleanup
//! for an account, or answer a query.

use crate::event::WsMessage;
use std::collections::HashMap;
use vstd::prelude::*;

verus! {

broadcast use vstd::std_specs::hash::group_hash_axioms;

/// The connections listed for `account`, in the order they were opened;
/// empty where the account has no entry.
pub open spec fn listed(m: Map<u128, Seq<u64>>, account: u128) -> Seq<u64> {
    if m.contains_key(account) {
        m[account]
    } else {
        Seq::empty()
    }
}

/// The test that every connection but `conn` passes.
pub open spec fn differs_from(conn: u64) -> spec_fn(u64) -> bool {
    |c: u64| c != conn
}

/// The list `list` without every occurrence of `conn`.
pub open spec fn without(list: Seq<u64>, conn: u64) -> Seq<u64> {
    list.filter(differs_from(conn))
}

/// The map after `conn` was opened for `account`: the connection is appended
/// to the account's list, and the entry is created if there was none.
pub open spec fn opened(m: Map<u128, Seq<u64>>, account: u128, conn: u64) -> Map<u128, Seq<u64>> {
    m.insert(account, listed(m, account).push(conn))
}

/// The map after `conn` of `account` was lost: the connection leaves the
/// account's list, and the entry goes with the last connection.
pub open spec fn dropped(m: Map<u128, Seq<u64>>, account: u128, conn: u64) -> Map<u128, Seq<u64>> {
    let rest = without(listed(m, account), conn);
    if rest.len() == 0 {
        m.remove(account)
    } else {
        m.insert(account, rest)
    }
}

/// The invariant of a presence map: finitely many entries, none of them with
/// an empty list.
pub open spec fn well_formed(m: Map<u128, Seq<u64>>) -> bool {
    &&& m.dom().finite()
    &&& forall|a: u128| m.contains_key(a) ==> (#[trigger] m[a]).len() > 0
}

/// The sum of the lengths of all connection lists of `m`.
pub open spec fn total_connections(m: Map<u128, Seq<u64>>) -> nat
    decreases m.dom().len(),
    when m.dom().finite()
    via total_connections_decreases
{
    if m.dom().len() == 0 {
        0
    } else {
        let a = m.dom().choose();
        m[a].len() + total_connections(m.remove(a))
    }
}

#[via_fn]
proof fn total_connections_decreases(m: Map<u128, Seq<u64>>) {
    if m.dom().len() != 0 {
        let a = m.dom().choose();
        vstd::set_lib::axiom_is_empty_len0(m.dom());
        assert(m.dom().contains(a));
        assert(m.remove(a).dom() =~= m.dom().remove(a));
    }
}

/// The total does not depend on the order in which entries are summed up:
/// any entry can be taken out first.
pub proof fn lemma_total_split(m: Map<u128, Seq<u64>>, account: u128)
    requires
        m.dom().finite(),
        m.contains_key(account),
    ensures
        total_connections(m) == m[account].len() + total_connections(m.remove(account)),
    decreases m.dom().len(),
{
    assert(m.dom().len() != 0) by {
        if m.dom().len() == 0 {
            vstd::set_lib::axiom_is_empty_len0(m.dom());
            assert(m.dom().contains(account));
        }
    }
    let a = m.dom().choose();
    vstd::set_lib::axiom_is_empty_len0(m.dom());
    assert(m.dom().contains(a));
    if a != account {
        let without_a = m.remove(a);
        let without_account = m.remove(account);
        assert(without_a.dom() =~= m.dom().remove(a));
        assert(without_account.dom() =~= m.dom().remove(account));
        lemma_total_split(without_a, account);
        lemma_total_split(without_account, a);
        assert(without_a.remove(account) =~= without_account.remove(a));
    }
}

/// Writing `list` under `account` replaces what the account contributed to
/// the total by the length of `list`.
pub proof fn lemma_total_insert(m: Map<u128, Seq<u64>>, account: u128, list: Seq<u64>)
    requires
        m.dom().finite(),
    ensures
        total_connections(m.insert(account, list)) == total_connections(m.remove(account))
            + list.len(),
{
    let after = m.insert(account, list);
    assert(after.remove(account) =~= m.remove(account));
    lemma_total_split(after, account);
}

/// Removing the entry of `account` takes the length of its list from the
/// total.
pub proof fn lemma_total_remove(m: Map<u128, Seq<u64>>, account: u128)
    requires
        m.dom().finite(),
    ensures
        total_connections(m) == listed(m, account).len() + total_connections(m.remove(account)),
{
    if m.contains_key(account) {
        lemma_total_split(m, account);
    } else {
        assert(m.remove(account) =~= m);
    }
}

/// One instruction to the registry.
#[derive(Clone, Debug, PartialEq, Eq)]
pub enum WsManagerMessage {
    /// A connection of the account was lost: closed by the client, broken, or
    /// timed out.
    WebsocketClosed(u128, u64),
    /// Close every connection of the account from the server side.
    CloseSocket(u128),
    /// The account opened the connection with the given identifier.
    OpenedSocket(u128, u64),
    /// Send an event to every connection of the account.
    SendMessage(u128, WsMessage),
    /// Ask for the number of open connections.
    RetrieveWsCount,
    /// Ask which of the given accounts are online.
    RetrieveOnlineStates(Vec<u128>),
    /// Ask whether the account is online.
    RetrieveOnlineState(u128),
}

/// What the loop that drives the registry has to do after a command.
#[derive(Debug, PartialEq, Eq)]
pub enum Reaction {
    /// Start an outbound sender for the connection.
    StartSender {
        /// The account the connection belongs to.
        account: u128,
        /// The new connection.
        connection: u64,
    },
    /// Hand the event to the sender of each connection, in this order. A
    /// forced close arrives here as the sentinel event.
    Deliver {
        /// The senders to hand the event to.
        connections: Vec<u64>,
        /// The event.
        event: WsMessage,
    },
    /// Start the cleanup for the account.
    StartCleanup {
        /// The account that lost a connection.
        account: u128,
    },
    /// Answer a count query.
    ReplyCount(u64),
    /// Answer a bulk presence query, one answer per account asked for.
    ReplyOnlineStates(Vec<bool>),
    /// Answer a presence query.
    ReplyOnlineState(bool),
}

/// The presence map after `msg` was processed on `m`.
pub open spec fn step(m: Map<u128, Seq<u64>>, msg: WsManagerMessage) -> Map<u128, Seq<u64>> {
    match msg {
        WsManagerMessage::OpenedSocket(account, conn) => opened(m, account, conn),
        WsManagerMessage::CloseSocket(account) => m.remove(account),
        WsManagerMessage::WebsocketClosed(account, conn) => dropped(m, account, conn),
        WsManagerMessage::SendMessage(_, _) => m,
        WsManagerMessage::RetrieveWsCount => m,
        WsManagerMessage::RetrieveOnlineStates(_) => m,
        WsManagerMessage::RetrieveOnlineState(_) => m,
    }
}

/// The answers to a bulk presence query on `m`.
pub open spec fn online_states_of(m: Map<u128, Seq<u64>>, accounts: Seq<u128>) -> Seq<bool> {
    Seq::new(accounts.len(), |i: int| m.contains_key(accounts[i]))
}

impl Reaction {
    /// Whether `self` is what the registry owes for `msg` on the map `m`.
    pub open spec fn answers(self, m: Map<u128, Seq<u64>>, msg: WsManagerMessage) -> bool {
        match msg {
            WsManagerMessage::OpenedSocket(account, conn) => self == (Reaction::StartSender {
                account,
                connection: conn,
            }),
            WsManagerMessage::CloseSocket(account) => {
                &&& self matches Reaction::Deliver { connections, event }
                &&& connections@ == listed(m, account)
                &&& event == WsMessage::ServerQuitSocket
            },
            WsManagerMessage::WebsocketClosed(account, _) => self == (Reaction::StartCleanup {
                account,
            }),
            WsManagerMessage::SendMessage(account, sent) => {
                &&& self matches Reaction::Deliver { connections, event }
                &&& connections@ == listed(m, account)
                &&& event == sent
            },
            WsManagerMessage::RetrieveWsCount => self == Reaction::ReplyCount(
                total_connections(m) as u64,
            ),
            WsManagerMessage::RetrieveOnlineStates(accounts) => {
                &&& self matches Reaction::ReplyOnlineStates(states)
                &&& states@ == online_states_of(m, accounts@)
            },
            WsManagerMessage::RetrieveOnlineState(account) => self == Reaction::ReplyOnlineState(
                m.contains_key(account),
            ),
        }
    }
}

/// The presence map with its connection counter.
pub struct Registry {
    lookup: HashMap<u128, Vec<u64>>,
    open_connections: u64,
}

impl View for Registry {
    type V = Map<u128, Seq<u64>>;

    /// The presence map: each account with an entry, and its connections in
    /// the order they were opened.
    closed spec fn view(&self) -> Map<u128, Seq<u64>> {
        Map::new(|a: u128| self.lookup@.contains_key(a), |a: u128| self.lookup@[a]@)
    }
}

impl Registry {
    /// The value of the connection counter, which is kept in 64 bits.
    pub closed spec fn counter(&self) -> nat {
        self.open_connections as nat
    }

    /// The registry's invariant: the map is well formed, and the counter is
    /// the total of its list lengths.
    pub open spec fn wf(&self) -> bool {
        &&& well_formed(self@)
        &&& self.counter() == total_connections(self@)
    }

    /// Whether one more connection can be listed.
    pub open spec fn has_room(&self) -> bool {
        total_connections(self@) < u64::MAX
    }

    proof fn lemma_view(&self)
        ensures
            self@.dom() =~= self.lookup@.dom(),
            self@.dom().finite(),
            forall|a: u128| self.lookup@.contains_key(a) ==> #[trigger] self@[a] == self.lookup@[a]@,
    {
    }

    /// Creates a registry in which nobody is online.
    pub fn new() -> (registry: Registry)
        ensures
            registry.wf(),
            registry@ == Map::<u128, Seq<u64>>::empty(),
    {
        let registry = Registry { lookup: HashMap::new(), open_connections: 0 };
        proof {
            assert(registry@ =~= Map::<u128, Seq<u64>>::empty());
            assert(registry@.dom().len() == 0);
        }
        registry
    }

    /// Lists `conn` for `account`, after the connections the account already
    /// has. The account is online afterwards.
    pub fn open(&mut self, account: u128, conn: u64)
        requires
            old(self).wf(),
            old(self).has_room(),
        ensures
            final(self).wf(),
            final(self)@ == opened(old(self)@, account, conn),
    {
        proof {
            self.lemma_view();
            lemma_total_remove(self@, account);
        }
        let ghost before = self@;
        let mut list = match self.lookup.remove(&account) {
            Some(list) => list,
            None => Vec::new(),
        };
        assert(list@ == listed(before, account));
        list.push(conn);
        self.lookup.insert(account, list);
        self.open_connections = self.open_connections + 1;
        proof {
            self.lemma_view();
            assert(self@ =~= opened(before, account, conn));
            lemma_total_insert(before, account, list@);
        }
    }

    /// Removes the entry of `account` and returns the connections it listed,
    /// in order. The account is offline afterwards.
    pub fn close(&mut self, account: u128) -> (connections: Vec<u64>)
        requires
            old(self).wf(),
        ensures
            final(self).wf(),
            final(self)@ == old(self)@.remove(account),
            connections@ == listed(old(self)@, account),
    {
        proof {
            self.lemma_view();
            lemma_total_remove(self@, account);
        }
        let ghost before = self@;
        let connections = match self.lookup.remove(&account) {
            Some(list) => list,
            None => Vec::new(),
        };
        self.open_connections = self.open_connections - (connections.len() as u64);
        proof {
            self.lemma_view();
            assert(self@ =~= before.remove(account));
        }
        connections
    }

    /// Takes every occurrence of `conn` out of the list of `account`, and the
    /// entry with it if nothing is left. Nothing changes where `conn` is not
    /// listed for `account`.
    pub fn disconnect(&mut self, account: u128, conn: u64)
        requires
            old(self).wf(),
        ensures
            final(self).wf(),
            final(self)@ == dropped(old(self)@, account, conn),
    {
        proof {
            self.lemma_view();
            lemma_total_remove(self@, account);
        }
        let ghost before = self@;
        let list = match self.lookup.remove(&account) {
            Some(list) => list,
            None => Vec::new(),
        };
        let rest = remove_connection(&list, conn);
        self.open_connections = self.open_connections - (list.len() as u64);
        proof {
            self.lemma_view();
            assert(self@ =~= before.remove(account));
        }
        if rest.len() > 0 {
            let ghost between = self@;
            proof {
                assert(between.remove(account) =~= between);
                lemma_total_insert(between, account, rest@);
                list@.lemma_filter_len(differs_from(conn));
            }
            self.open_connections = self.open_connections + (rest.len() as u64);
            self.lookup.insert(account, rest);
            proof {
                self.lemma_view();
                assert(self@ =~= between.insert(account, rest@));
                assert(self@ =~= before.insert(account, rest@));
            }
        }
    }

    /// Returns the connections listed for `account`, in order; none where the
    /// account is offline.
    pub fn connections(&self, account: u128) -> (connections: Vec<u64>)
        ensures
            connections@ == listed(self@, account),
    {
        proof {
            self.lemma_view();
        }
        match self.lookup.get(&account) {
            Some(list) => copy_connections(list),
            None => Vec::new(),
        }
    }

    /// Tells whether `account` has an entry.
    pub fn is_online(&self, account: u128) -> (online: bool)
        ensures
            online == self@.contains_key(account),
    {
        proof {
            self.lemma_view();
        }
        self.lookup.contains_key(&account)
    }

    /// Tells for each of `accounts`, in order, whether it has an entry.
    pub fn online_states(&self, accounts: &Vec<u128>) -> (states: Vec<bool>)
        ensures
            states@ == online_states_of(self@, accounts@),
    {
        let mut states: Vec<bool> = Vec::new();
        let mut i: usize = 0;
        while i < accounts.len()
            invariant
                i <= accounts.len(),
                states@.len() == i,
                forall|j: int| 0 <= j < i ==> states@[j] == self@.contains_key(accounts@[j]),
            decreases accounts.len() - i,
        {
            let online = self.is_online(accounts[i]);
            states.push(online);
            i = i + 1;
        }
        assert(states@ =~= online_states_of(self@, accounts@));
        states
    }

    /// Returns the number of listed connections, over all accounts.
    pub fn count(&self) -> (count: u64)
        requires
            self.wf(),
        ensures
            count == total_connections(self@),
    {
        self.open_connections
    }

    /// Processes one command: changes the presence map as the command asks
    /// and returns what the driving loop has to do. Queries are answered from
    /// the map as it is when the command is processed.
    pub fn process(&mut self, msg: WsManagerMessage) -> (reaction: Reaction)
        requires
            old(self).wf(),
            msg is OpenedSocket ==> old(self).has_room(),
        ensures
            final(self).wf(),
            final(self)@ == step(old(self)@, msg),
            reaction.answers(old(self)@, msg),
    {
        match msg {
            WsManagerMessage::OpenedSocket(account, conn) => {
                self.open(account, conn);
                Reaction::StartSender { account, connection: conn }
            },
            WsManagerMessage::CloseSocket(account) => {
                let connections = self.close(account);
                Reaction::Deliver { connections, event: WsMessage::ServerQuitSocket }
            },
            WsManagerMessage::WebsocketClosed(account, conn) => {
                self.disconnect(account, conn);
                Reaction::StartCleanup { account }
            },
            WsManagerMessage::SendMessage(account, event) => {
                let connections = self.connections(account);
                Reaction::Deliver { connections, event }
            },
            WsManagerMessage::RetrieveWsCount => Reaction::ReplyCount(self.count()),
            WsManagerMessage::RetrieveOnlineStates(accounts) => {
                let states = self.online_states(&accounts);
                Reaction::ReplyOnlineStates(states)
            },
            WsManagerMessage::RetrieveOnlineState(account) => Reaction::ReplyOnlineState(
                self.is_online(account),
            ),
        }
    }

    /// Processes `msg` if the registry can take it, and returns `None` with
    /// the registry unchanged if `msg` opens a connection and the counter is
    /// at its limit.
    pub fn try_process(&mut self, msg: WsManagerMessage) -> (reaction: Option<Reaction>)
        requires
            old(self).wf(),
        ensures
            final(self).wf(),
            match reaction {
                Some(r) => {
                    &&& msg is OpenedSocket ==> old(self).has_room()
                    &&& final(self)@ == step(old(self)@, msg)
                    &&& r.answers(old(self)@, msg)
                },
                None => {
                    &&& msg is OpenedSocket
                    &&& !old(self).has_room()
                    &&& final(self)@ == old(self)@
                },
            },
    {
        let full = self.open_connections == u64::MAX;
        match msg {
            WsManagerMessage::OpenedSocket(_, _) => {
                if full {
                    None
                } else {
                    Some(self.process(msg))
                }
            },
            _ => Some(self.process(msg)),
        }
    }
}

/// Returns a copy of `list`.
fn copy_connections(list: &Vec<u64>) -> (copy: Vec<u64>)
    ensures
        copy@ == list@,
{
    let mut copy: Vec<u64> = Vec::new();
    let mut i: usize = 0;
    while i < list.len()
        invariant
            i <= list.len(),
            copy@ == list@.take(i as int),
        decreases list.len() - i,
    {
        copy.push(list[i]);
        assert(list@.take(i + 1) =~= list@.take(i as int).push(list@[i as int]));
        i = i + 1;
    }
    assert(list@.take(list.len() as int) =~= list@);
    copy
}

/// Returns `list` without every occurrence of `conn`, the rest in order.
pub fn remove_connection(list: &Vec<u64>, conn: u64) -> (rest: Vec<u64>)
    ensures
        rest@ == without(list@, conn),
{
    let mut rest: Vec<u64> = Vec::new();
    let mut i: usize = 0;
    proof {
        reveal(Seq::filter);
        assert(without(list@.take(0), conn) =~= Seq::<u64>::empty());
    }
    while i < list.len()
        invariant
            i <= list.len(),
            rest@ == without(list@.take(i as int), conn),
        decreases list.len() - i,
    {
        let c = list[i];
        proof {
            reveal(Seq::filter);
            let next = list@.take(i + 1);
            assert(next.drop_last() =~= list@.take(i as int));
            assert(next.last() == c);
        }
        if c != conn {
            rest.push(c);
        }
        i = i + 1;
    }
    assert(list@.take(list.len() as int) =~= list@);
    rest
}

} // verus!
