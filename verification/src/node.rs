//! The remote nodes the application knows of and their connection states,
//! in the order in which they became known.

use indexmap::IndexMap;
use vstd::prelude::*;

use crate::config;
use crate::config::node::{entries_insert, find_key, lemma_find_key};

verus! {

/// Which side opened a connection.
#[derive(Debug, Clone, Copy, PartialEq, Eq, Structural)]
pub enum Direction {
    Outbound,
    Inbound,
}

/// Whether a node is connected. A connection is named by the integer of its
/// link, under which the network layer keeps the link's sender and stream;
/// a connection state that is replaced closes its link.
#[derive(Debug, Clone, Copy, PartialEq, Eq, Structural)]
pub enum ConnectionState {
    Disconnected,
    Connected { direction: Direction, link: u64 },
}

/// The link of a connection state, if it is connected.
pub open spec fn link_of(state: ConnectionState) -> Option<u64> {
    match state {
        ConnectionState::Disconnected => None,
        ConnectionState::Connected { link, .. } => Some(link),
    }
}

/// A known node.
#[derive(Debug)]
pub struct Node {
    pub name: String,
    pub nickname: Option<String>,
    pub connection_state: ConnectionState,
}

/// What a node is: its name, its nickname, its connection state.
pub struct NodeView {
    pub name: Seq<char>,
    pub nickname: Option<Seq<char>>,
    pub connection_state: ConnectionState,
}

pub open spec fn opt_string_view(s: Option<String>) -> Option<Seq<char>> {
    match s {
        Some(s) => Some(s@),
        None => None,
    }
}

impl View for Node {
    type V = NodeView;

    open spec fn view(&self) -> NodeView {
        NodeView {
            name: self.name@,
            nickname: opt_string_view(self.nickname),
            connection_state: self.connection_state,
        }
    }
}

impl Node {
    /// A disconnected node with an empty name and no nickname.
    pub fn default() -> (n: Self)
        ensures
            n.name@ == Seq::<char>::empty(),
            n.nickname is None,
            n.connection_state == ConnectionState::Disconnected,
    {
        Node { name: String::new(), nickname: None, connection_state: ConnectionState::Disconnected }
    }
}

fn clone_opt_string(s: &Option<String>) -> (r: Option<String>)
    ensures
        r == *s,
{
    match s {
        Some(s) => Some(s.clone()),
        None => None,
    }
}

fn copy_bytes(v: &Vec<u8>) -> (r: Vec<u8>)
    ensures
        r@ == v@,
{
    let mut r: Vec<u8> = Vec::new();
    let mut i: usize = 0;
    while i < v.len()
        invariant
            i <= v.len(),
            r@ == v@.subrange(0, i as int),
        decreases v.len() - i,
    {
        r.push(v[i]);
        assert(v@.subrange(0, i + 1) == v@.subrange(0, i as int).push(v@[i as int]));
        i = i + 1;
    }
    assert(v@.subrange(0, v.len() as int) == v@);
    r
}

/// The entries of a node map: each node's encoded id and what it is.
pub uninterp spec fn node_entries(m: IndexMap<Vec<u8>, Node>) -> Seq<(Seq<u8>, NodeView)>;

/// `IndexMap::new`: an empty map.
#[verifier::external_body]
fn node_map_new() -> (m: IndexMap<Vec<u8>, Node>)
    ensures
        node_entries(m) == Seq::<(Seq<u8>, NodeView)>::empty(),
{
    IndexMap::new()
}

/// `IndexMap::len`: the number of entries.
#[verifier::external_body]
fn node_map_len(m: &IndexMap<Vec<u8>, Node>) -> (n: usize)
    ensures
        n == node_entries(*m).len(),
{
    m.len()
}

/// `IndexMap::get_index`: the entry at a position, `None` past the end.
#[verifier::external_body]
fn node_map_get_index(m: &IndexMap<Vec<u8>, Node>, i: usize) -> (r: Option<(&Vec<u8>, &Node)>)
    ensures
        i < node_entries(*m).len() ==> r is Some && r.unwrap().0@ == node_entries(*m)[i as int].0 && r.unwrap().1@ == node_entries(*m)[i as int].1,
        i >= node_entries(*m).len() ==> r is None,
{
    m.get_index(i)
}

/// `IndexMap::get`: the node under an id, if any.
#[verifier::external_body]
fn node_map_get<'a>(m: &'a IndexMap<Vec<u8>, Node>, k: &Vec<u8>) -> (r: Option<&'a Node>)
    ensures
        find_key(node_entries(*m), k@) is None ==> r is None,
        find_key(node_entries(*m), k@) is Some ==> r is Some && r.unwrap()@ == node_entries(*m)[find_key(node_entries(*m), k@).unwrap()].1,
{
    m.get(k)
}

/// `IndexMap::insert`: an existing id keeps its position and takes the new
/// node, which returns the old one; a new id goes last.
#[verifier::external_body]
fn node_map_insert(m: &mut IndexMap<Vec<u8>, Node>, k: Vec<u8>, v: Node) -> (r: Option<Node>)
    ensures
        node_entries(*final(m)) == entries_insert(node_entries(*old(m)), k@, v@),
        find_key(node_entries(*old(m)), k@) is None ==> r is None,
        find_key(node_entries(*old(m)), k@) is Some ==> r is Some && r.unwrap()@ == node_entries(*old(m))[find_key(node_entries(*old(m)), k@).unwrap()].1,
{
    m.insert(k, v)
}

/// No two entries share a key.
pub open spec fn keys_distinct<K, V>(entries: Seq<(K, V)>) -> bool {
    forall|i: int, j: int|
        0 <= i < entries.len() && 0 <= j < entries.len() && i != j ==> entries[i].0 != entries[j].0
}

/// Inserting keeps keys distinct, and with distinct keys a key is found
/// exactly where it stands.
pub proof fn lemma_entries_insert_distinct<K, V>(entries: Seq<(K, V)>, k: K, v: V)
    requires
        keys_distinct(entries),
    ensures
        keys_distinct(entries_insert(entries, k, v)),
        forall|i: int| 0 <= i < entries.len() ==> find_key(entries, #[trigger] entries[i].0) == Some(i),
{
    lemma_find_key(entries, k);
    assert forall|i: int| 0 <= i < entries.len() implies find_key(entries, #[trigger] entries[i].0) == Some(i) by {
        lemma_find_key(entries, entries[i].0);
    }
}

/// The nodes of the configuration as known nodes: each node under its peer
/// id, named as in the configuration, disconnected; a peer id named twice
/// keeps the place of its first entry and what its last entry says.
pub open spec fn nodes_from_config(cfg: Seq<(Seq<char>, config::Node)>) -> Seq<(Seq<u8>, NodeView)>
    decreases cfg.len(),
{
    if cfg.len() == 0 {
        Seq::empty()
    } else {
        entries_insert(
            nodes_from_config(cfg.drop_last()),
            cfg.last().1.peer_id@,
            NodeView {
                name: cfg.last().0,
                nickname: opt_string_view(cfg.last().1.nickname),
                connection_state: ConnectionState::Disconnected,
            },
        )
    }
}

/// Every node of `after` is disconnected, and otherwise the entries are
/// those of `before`.
pub open spec fn all_disconnected(before: Seq<(Seq<u8>, NodeView)>, after: Seq<(Seq<u8>, NodeView)>) -> bool {
    &&& after.len() == before.len()
    &&& forall|i: int| 0 <= i < after.len() ==> (#[trigger] after[i]).0 == before[i].0
        && after[i].1.name == before[i].1.name && after[i].1.nickname == before[i].1.nickname
        && after[i].1.connection_state == ConnectionState::Disconnected
}

/// The links of the connected nodes, in order.
pub open spec fn connected_links(entries: Seq<(Seq<u8>, NodeView)>) -> Seq<u64>
    decreases entries.len(),
{
    if entries.len() == 0 {
        Seq::empty()
    } else {
        match link_of(entries.last().1.connection_state) {
            Some(l) => connected_links(entries.drop_last()).push(l),
            None => connected_links(entries.drop_last()),
        }
    }
}

/// The entries after node `id` takes a connection state: a known node keeps
/// its place, name and nickname; an unknown one is added last, named
/// "Unknown".
pub open spec fn entries_connected(before: Seq<(Seq<u8>, NodeView)>, id: Seq<u8>, state: ConnectionState) -> Seq<(Seq<u8>, NodeView)> {
    match find_key(before, id) {
        Some(j) => before.update(j, (id, NodeView { name: before[j].1.name, nickname: before[j].1.nickname, connection_state: state })),
        None => before.push((id, NodeView { name: "Unknown"@, nickname: None, connection_state: state })),
    }
}

/// The entries after node `id` is disconnected; an unknown node changes
/// nothing.
pub open spec fn entries_disconnected(before: Seq<(Seq<u8>, NodeView)>, id: Seq<u8>) -> Seq<(Seq<u8>, NodeView)> {
    match find_key(before, id) {
        Some(j) => before.update(j, (id, NodeView { name: before[j].1.name, nickname: before[j].1.nickname, connection_state: ConnectionState::Disconnected })),
        None => before,
    }
}

/// The link that changing the state of node `id` closes.
pub open spec fn dropped_link(before: Seq<(Seq<u8>, NodeView)>, id: Seq<u8>) -> Option<u64> {
    match find_key(before, id) {
        Some(j) => link_of(before[j].1.connection_state),
        None => None,
    }
}

/// Disconnecting a known node undoes connecting it: the node is back as it
/// would be had it been disconnected without the new connection.
pub proof fn lemma_connect_then_disconnect(before: Seq<(Seq<u8>, NodeView)>, id: Seq<u8>, state: ConnectionState)
    requires
        find_key(before, id) is Some,
    ensures
        entries_disconnected(entries_connected(before, id, state), id) == entries_disconnected(before, id),
        dropped_link(entries_connected(before, id, state), id) == link_of(state),
{
    let j = find_key(before, id).unwrap();
    lemma_find_key(before, id);
    let after = entries_connected(before, id, state);
    lemma_find_key_update(before, id, j, (id, NodeView { name: before[j].1.name, nickname: before[j].1.nickname, connection_state: state }));
    assert(find_key(after, id) == Some(j));
}

/// Disconnecting a node changes nothing but that node's connection state:
/// every entry keeps its place, id, name and nickname, the node with the id
/// is disconnected, and every other node keeps its state.
pub proof fn lemma_disconnect_changes_only_state(before: Seq<(Seq<u8>, NodeView)>, id: Seq<u8>)
    requires
        keys_distinct(before),
    ensures
        entries_disconnected(before, id).len() == before.len(),
        forall|i: int|
            0 <= i < before.len() ==> {
                let after = #[trigger] entries_disconnected(before, id)[i];
                &&& after.0 == before[i].0
                &&& after.1.name == before[i].1.name
                &&& after.1.nickname == before[i].1.nickname
                &&& after.1.connection_state == if before[i].0 == id {
                    ConnectionState::Disconnected
                } else {
                    before[i].1.connection_state
                }
            },
{
    lemma_find_key(before, id);
}

/// Replacing the value at the found position of a key keeps the key found
/// there.
pub proof fn lemma_find_key_update<K, V>(entries: Seq<(K, V)>, k: K, j: int, e: (K, V))
    requires
        find_key(entries, k) == Some(j),
        e.0 == k,
    ensures
        find_key(entries.update(j, e), k) == Some(j),
    decreases entries.len(),
{
    lemma_find_key(entries, k);
    let u = entries.update(j, e);
    if j < entries.len() - 1 {
        assert(u.drop_last() == entries.drop_last().update(j, e));
        lemma_find_key(entries.drop_last(), k);
        lemma_find_key_update(entries.drop_last(), k, j, e);
    } else {
        assert(u.drop_last() == entries.drop_last());
        lemma_find_key(entries.drop_last(), k);
    }
}

/// Disconnecting a node right after connecting it closes exactly the link
/// of the new connection, whether the node was known or not.
pub proof fn lemma_disconnect_closes_new_link(before: Seq<(Seq<u8>, NodeView)>, id: Seq<u8>, state: ConnectionState)
    ensures
        dropped_link(entries_connected(before, id, state), id) == link_of(state),
{
    lemma_find_key(before, id);
    match find_key(before, id) {
        Some(j) => {
            lemma_connect_then_disconnect(before, id, state);
        },
        None => {
            let after = entries_connected(before, id, state);
            assert(after.drop_last() == before);
            assert(find_key(after, id) == Some(before.len() as int));
        },
    }
}

/// The known nodes, by encoded peer id, in the order they became known.
#[derive(Debug)]
pub struct Nodes(IndexMap<Vec<u8>, Node>);

impl Nodes {
    #[verifier::type_invariant]
    spec fn inv(self) -> bool {
        keys_distinct(node_entries(self.0))
    }

    /// The nodes, in order.
    pub closed spec fn entries(&self) -> Seq<(Seq<u8>, NodeView)> {
        node_entries(self.0)
    }

    /// No known node.
    pub fn default() -> (m: Self)
        ensures
            m.entries() == Seq::<(Seq<u8>, NodeView)>::empty(),
    {
        Nodes(node_map_new())
    }

    /// The number of known nodes.
    pub fn len(&self) -> (n: usize)
        ensures
            n == self.entries().len(),
    {
        node_map_len(&self.0)
    }

    /// The node at position `i`, with its id.
    pub fn get_index(&self, i: usize) -> (r: Option<(&Vec<u8>, &Node)>)
        ensures
            i < self.entries().len() ==> r is Some && r.unwrap().0@ == self.entries()[i as int].0 && r.unwrap().1@ == self.entries()[i as int].1,
            i >= self.entries().len() ==> r is None,
    {
        node_map_get_index(&self.0, i)
    }

    fn insert(&mut self, id: Vec<u8>, node: Node) -> (r: Option<Node>)
        ensures
            final(self).entries() == entries_insert(old(self).entries(), id@, node@),
            find_key(old(self).entries(), id@) is None ==> r is None,
            find_key(old(self).entries(), id@) is Some ==> r is Some && r.unwrap()@ == old(self).entries()[find_key(old(self).entries(), id@).unwrap()].1,
    {
        proof {
            use_type_invariant(&*self);
            lemma_entries_insert_distinct(node_entries(self.0), id@, node@);
        }
        let mut map = node_map_new();
        std::mem::swap(&mut map, &mut self.0);
        let r = node_map_insert(&mut map, id, node);
        self.0 = map;
        r
    }

    /// The nodes named in the configuration, disconnected.
    pub fn new(nodes: config::NodeMap) -> (m: Self)
        ensures
            m.entries() == nodes_from_config(nodes.entries()),
    {
        let mut m = Nodes::default();
        let n = nodes.len();
        let mut i: usize = 0;
        while i < n
            invariant
                n == nodes.entries().len(),
                i <= n,
                m.entries() == nodes_from_config(nodes.entries().take(i as int)),
            decreases n - i,
        {
            match nodes.get_index(i) {
                Some((name, node)) => {
                    let entry = Node {
                        name: name.clone(),
                        nickname: clone_opt_string(&node.nickname),
                        connection_state: ConnectionState::Disconnected,
                    };
                    m.insert(copy_bytes(&node.peer_id), entry);
                },
                None => {},
            }
            assert(nodes.entries().take(i + 1).drop_last() == nodes.entries().take(i as int));
            i = i + 1;
        }
        assert(nodes.entries().take(n as int) == nodes.entries());
        m
    }

    /// Records the connection state of node `id`; an unknown node is added
    /// last under the name "Unknown". Returns the link of the connection
    /// that the new state replaces, which is to be closed.
    pub fn connected(&mut self, id: Vec<u8>, connection_state: ConnectionState) -> (dropped: Option<u64>)
        ensures
            final(self).entries() == entries_connected(old(self).entries(), id@, connection_state),
            dropped == dropped_link(old(self).entries(), id@),
    {
        proof {
            use_type_invariant(&*self);
            lemma_find_key(node_entries(self.0), id@);
        }
        let entry = match node_map_get(&self.0, &id) {
            Some(node) => Node {
                name: node.name.clone(),
                nickname: clone_opt_string(&node.nickname),
                connection_state,
            },
            None => {
                proof {
                    reveal_strlit("Unknown");
                }
                Node { name: String::from_str("Unknown"), nickname: None, connection_state }
            },
        };
        match self.insert(id, entry) {
            Some(replaced) => match replaced.connection_state {
                ConnectionState::Connected { link, .. } => Some(link),
                ConnectionState::Disconnected => None,
            },
            None => None,
        }
    }

    /// Marks node `id` disconnected, if it is known. Returns the link of the
    /// connection that this closes.
    pub fn disconnected(&mut self, id: &Vec<u8>) -> (dropped: Option<u64>)
        ensures
            final(self).entries() == entries_disconnected(old(self).entries(), id@),
            dropped == dropped_link(old(self).entries(), id@),
    {
        proof {
            use_type_invariant(&*self);
            lemma_find_key(node_entries(self.0), id@);
        }
        let entry = match node_map_get(&self.0, id) {
            Some(node) => Node {
                name: node.name.clone(),
                nickname: clone_opt_string(&node.nickname),
                connection_state: ConnectionState::Disconnected,
            },
            None => {
                return None;
            },
        };
        match self.insert(copy_bytes(id), entry) {
            Some(replaced) => match replaced.connection_state {
                ConnectionState::Connected { link, .. } => Some(link),
                ConnectionState::Disconnected => None,
            },
            None => None,
        }
    }

    /// Marks every node disconnected. Returns the links of the connections
    /// that this closes, in the order of the nodes.
    pub fn disconnect_all(&mut self) -> (dropped: Vec<u64>)
        ensures
            all_disconnected(old(self).entries(), final(self).entries()),
            dropped@ == connected_links(old(self).entries()),
    {
        let ghost before = self.entries();
        let mut dropped: Vec<u64> = Vec::new();
        let n = self.len();
        let mut i: usize = 0;
        while i < n
            invariant
                n == before.len(),
                i <= n,
                self.entries().len() == n,
                forall|j: int| 0 <= j < n ==> (#[trigger] self.entries()[j]).0 == before[j].0
                    && self.entries()[j].1.name == before[j].1.name
                    && self.entries()[j].1.nickname == before[j].1.nickname,
                forall|j: int| 0 <= j < i ==> (#[trigger] self.entries()[j]).1.connection_state == ConnectionState::Disconnected,
                forall|j: int| i <= j < n ==> (#[trigger] self.entries()[j]).1.connection_state == before[j].1.connection_state,
                dropped@ == connected_links(before.take(i as int)),
            decreases n - i,
        {
            proof {
                use_type_invariant(&*self);
                lemma_entries_insert_distinct(self.entries(), before[i as int].0, before[i as int].1);
            }
            let (id, entry, link) = match self.get_index(i) {
                Some((id, node)) => {
                    let link = match node.connection_state {
                        ConnectionState::Connected { link, .. } => Some(link),
                        ConnectionState::Disconnected => None,
                    };
                    (copy_bytes(id), Node {
                        name: node.name.clone(),
                        nickname: clone_opt_string(&node.nickname),
                        connection_state: ConnectionState::Disconnected,
                    }, link)
                },
                None => {
                    return dropped;
                },
            };
            assert(find_key(self.entries(), id@) == Some(i as int));
            self.insert(id, entry);
            match link {
                Some(l) => dropped.push(l),
                None => {},
            }
            assert(before.take(i + 1).drop_last() == before.take(i as int));
            i = i + 1;
        }
        assert(before.take(n as int) == before);
        dropped
    }

}

} // verus!
