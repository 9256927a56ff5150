//! The nodes named in the configuration file, in the file's order.

use indexmap::IndexMap;
use vstd::prelude::*;

verus! {

#[verifier::external_type_specification]
#[verifier::external_body]
#[verifier::reject_recursive_types(K)]
#[verifier::reject_recursive_types(V)]
#[verifier::reject_recursive_types(S)]
pub struct ExIndexMap<K, V, S>(IndexMap<K, V, S>);

/// The first position of key `k` among the entries, if it has one.
pub open spec fn find_key<K, V>(entries: Seq<(K, V)>, k: K) -> Option<int>
    decreases entries.len(),
{
    if entries.len() == 0 {
        None
    } else {
        match find_key(entries.drop_last(), k) {
            Some(i) => Some(i),
            None => if entries.last().0 == k {
                Some(entries.len() - 1)
            } else {
                None
            },
        }
    }
}

/// Inserting into an insertion-ordered map: an existing key keeps its
/// position and takes the new value, a new key goes last.
pub open spec fn entries_insert<K, V>(entries: Seq<(K, V)>, k: K, v: V) -> Seq<(K, V)> {
    match find_key(entries, k) {
        Some(i) => entries.update(i, (k, v)),
        None => entries.push((k, v)),
    }
}

/// The value that inserting replaces, if any.
pub open spec fn entries_replaced<K, V>(entries: Seq<(K, V)>, k: K) -> Option<V> {
    match find_key(entries, k) {
        Some(i) => Some(entries[i].1),
        None => None,
    }
}

/// A found key is at a valid position and holds the key.
pub proof fn lemma_find_key<K, V>(entries: Seq<(K, V)>, k: K)
    ensures
        find_key(entries, k) matches Some(i) ==> 0 <= i < entries.len() && entries[i].0 == k,
        find_key(entries, k) is None ==> forall|j: int| 0 <= j < entries.len() ==> entries[j].0 != k,
    decreases entries.len(),
{
    if entries.len() > 0 {
        lemma_find_key(entries.drop_last(), k);
        assert forall|j: int| 0 <= j < entries.len() - 1 implies entries[j] == entries.drop_last()[j] by {}
    }
}

/// A node named in the configuration.
#[derive(Debug, Clone)]
pub struct Node {
    /// Whether the node is reached through a relay, for nodes that cannot be
    /// reached directly, for example behind a NAT.
    pub relayed: bool,
    /// The encoded peer id of the remote node.
    pub peer_id: Vec<u8>,
    /// The name shown for the node; the configuration name when unset.
    pub nickname: Option<String>,
}

/// The entries of a configuration node map, by name, in file order.
pub uninterp spec fn config_node_entries(m: IndexMap<String, Node>) -> Seq<(Seq<char>, Node)>;

/// `IndexMap::new`: an empty map.
#[verifier::external_body]
fn index_map_new() -> (m: IndexMap<String, Node>)
    ensures
        config_node_entries(m) == Seq::<(Seq<char>, Node)>::empty(),
{
    IndexMap::new()
}

/// `IndexMap::len`: the number of entries.
#[verifier::external_body]
fn index_map_len(m: &IndexMap<String, Node>) -> (n: usize)
    ensures
        n == config_node_entries(*m).len(),
{
    m.len()
}

/// `IndexMap::get_index`: the entry at a position, `None` past the end.
#[verifier::external_body]
fn index_map_get_index(m: &IndexMap<String, Node>, i: usize) -> (r: Option<(&String, &Node)>)
    ensures
        i < config_node_entries(*m).len() ==> r is Some && r.unwrap().0@ == config_node_entries(*m)[i as int].0 && *r.unwrap().1 == config_node_entries(*m)[i as int].1,
        i >= config_node_entries(*m).len() ==> r is None,
{
    m.get_index(i)
}

/// `IndexMap::insert`: an existing name keeps its position and takes the
/// new node, which returns the old one; a new name goes last.
#[verifier::external_body]
fn index_map_insert(m: &mut IndexMap<String, Node>, k: String, v: Node) -> (r: Option<Node>)
    ensures
        config_node_entries(*final(m)) == entries_insert(config_node_entries(*old(m)), k@, v),
        r == entries_replaced(config_node_entries(*old(m)), k@),
{
    m.insert(k, v)
}

/// The nodes of the configuration by name, in the order of the file.
#[derive(Debug)]
pub struct NodeMap(pub IndexMap<String, Node>);

impl NodeMap {
    /// The nodes, by name, in order.
    pub open spec fn entries(&self) -> Seq<(Seq<char>, Node)> {
        config_node_entries(self.0)
    }

    /// No node.
    pub fn empty() -> (m: Self)
        ensures
            m.entries() == Seq::<(Seq<char>, Node)>::empty(),
    {
        NodeMap(index_map_new())
    }

    /// The number of nodes.
    pub fn len(&self) -> (n: usize)
        ensures
            n == self.entries().len(),
    {
        index_map_len(&self.0)
    }

    /// The node at position `i`, with its name.
    pub fn get_index(&self, i: usize) -> (r: Option<(&String, &Node)>)
        ensures
            i < self.entries().len() ==> (r matches Some((k, v)) && k@ == self.entries()[i as int].0
                && *v == self.entries()[i as int].1),
            i >= self.entries().len() ==> r is None,
    {
        index_map_get_index(&self.0, i)
    }

    /// Names a node; a name already used keeps its position and takes the
    /// new node, which returns the old one.
    pub fn insert(&mut self, name: String, node: Node) -> (r: Option<Node>)
        ensures
            final(self).entries() == entries_insert(old(self).entries(), name@, node),
            r == entries_replaced(old(self).entries(), name@),
    {
        index_map_insert(&mut self.0, name, node)
    }
}

/// The name shown for a node: its nickname, else its configuration name.
pub fn display_name<'a>(node_name: &'a String, node: &'a Node) -> (name: &'a String)
    ensures
        node.nickname matches Some(nick) ==> name == nick,
        node.nickname is None ==> name == node_name,
{
    match &node.nickname {
        Some(nickname) => nickname,
        None => node_name,
    }
}

} // verus!
