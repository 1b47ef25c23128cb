//! Nodes of the session's tree as the endpoints show them: which fields of a
//! node a client asked for, and the projection that answers it.

use vstd::prelude::*;
use crate::http::BadRequest;
use crate::text::{lemma_replaced_by_one, replace_char, substituted};

verus! {

/// Address of a node in the tree: a dense index and the stamp that tells a
/// node from an earlier one that held the same index.
#[derive(Debug, Clone, Copy, PartialEq, Eq, Hash, Structural)]
pub struct NodeId {
    pub index1: usize,
    pub stamp: usize,
}

/// The fields of a node that a client asks for.
#[derive(Debug, Clone, Copy, PartialEq, Eq, Structural)]
pub struct NodeOption {
    pub name: bool,
    pub path: bool,
    pub attributes: bool,
    pub children: bool,
}

/// A request for one node.
#[derive(Debug, Clone, Copy, PartialEq, Eq)]
pub struct NodeIdOption {
    pub node_id: NodeId,
    pub option: NodeOption,
}

/// A request for several nodes, all with the same fields.
#[derive(Debug, Clone, PartialEq, Eq)]
pub struct NodesIdOption {
    pub nodes_id: Vec<NodeId>,
    pub option: NodeOption,
}

/// A request to add an attribute to a node. `V` is the type of values that
/// the tree stores; the server hands a value on without looking into it.
#[derive(Debug, Clone, PartialEq, Eq)]
pub struct AttributeInfo<V> {
    pub node_id: NodeId,
    /// A plain name: a dot in it does not lead into a nested value.
    pub name: String,
    pub value: V,
    pub description: Option<String>,
}

/// An attribute to add to a node.
#[derive(Debug, Clone, PartialEq, Eq)]
pub struct Attribute<V> {
    pub name: String,
    pub value: V,
    pub description: Option<String>,
}

/// What the tree holds of one node. A field that the request at hand does
/// not ask for is never read.
#[derive(Debug, PartialEq, Eq)]
pub struct NodeFacts {
    pub name: String,
    pub path: String,
    /// The node's attributes, already written out as a document.
    pub attributes: serde_json::Value,
    /// Id and name of each child.
    pub children: Vec<(NodeId, String)>,
    pub has_children: bool,
}

/// A node as a client sees it: its id, whether it has children, and the
/// fields that were asked for.
#[derive(Debug, PartialEq, Eq)]
pub struct NodeState {
    pub id: NodeId,
    pub name: Option<String>,
    pub path: Option<String>,
    pub attributes: Option<serde_json::Value>,
    pub children: Option<Vec<(NodeId, String)>>,
    pub has_children: bool,
}

/// Model of `NodeFacts`.
pub struct NodeFactsView {
    pub name: Seq<char>,
    pub path: Seq<char>,
    pub attributes: serde_json::Value,
    pub children: Seq<(NodeId, Seq<char>)>,
    pub has_children: bool,
}

/// Model of `NodeState`.
pub struct NodeStateView {
    pub id: NodeId,
    pub name: Option<Seq<char>>,
    pub path: Option<Seq<char>>,
    pub attributes: Option<serde_json::Value>,
    pub children: Option<Seq<(NodeId, Seq<char>)>>,
    pub has_children: bool,
}

/// The children of a node as pairs of id and name.
pub open spec fn children_view(children: Seq<(NodeId, String)>) -> Seq<(NodeId, Seq<char>)> {
    Seq::new(children.len(), |i: int| (children[i].0, children[i].1@))
}

impl View for NodeFacts {
    type V = NodeFactsView;

    open spec fn view(&self) -> NodeFactsView {
        NodeFactsView {
            name: self.name@,
            path: self.path@,
            attributes: self.attributes,
            children: children_view(self.children@),
            has_children: self.has_children,
        }
    }
}

impl View for NodeState {
    type V = NodeStateView;

    open spec fn view(&self) -> NodeStateView {
        NodeStateView {
            id: self.id,
            name: match self.name {
                Some(name) => Some(name@),
                None => None,
            },
            path: match self.path {
                Some(path) => Some(path@),
                None => None,
            },
            attributes: self.attributes,
            children: match self.children {
                Some(children) => Some(children_view(children@)),
                None => None,
            },
            has_children: self.has_children,
        }
    }
}

/// The model of what the tree returned for one id.
pub open spec fn facts_view(facts: Option<NodeFacts>) -> Option<NodeFactsView> {
    match facts {
        Some(node) => Some(node@),
        None => None,
    }
}

/// The model of an answer that is a node or a refusal.
pub open spec fn answer_view(answer: Result<NodeState, BadRequest>) -> Result<
    NodeStateView,
    Seq<char>,
> {
    match answer {
        Ok(state) => Ok(state@),
        Err(error) => Err(error@),
    }
}

/// The models of a list of nodes.
pub open spec fn states_view(states: Seq<NodeState>) -> Seq<NodeStateView> {
    Seq::new(states.len(), |i: int| states[i]@)
}

/// The projection of a node: each optional field is there exactly when its
/// flag is set, and an id that the tree does not hold is refused.
pub open spec fn realized(node_id: NodeId, option: NodeOption, facts: Option<NodeFactsView>) -> Result<
    NodeStateView,
    Seq<char>,
> {
    match facts {
        Some(node) => Ok(
            NodeStateView {
                id: node_id,
                name: if option.name {
                    Some(node.name)
                } else {
                    None
                },
                path: if option.path {
                    Some(node.path)
                } else {
                    None
                },
                attributes: if option.attributes {
                    Some(node.attributes)
                } else {
                    None
                },
                children: if option.children {
                    Some(node.children)
                } else {
                    None
                },
                has_children: node.has_children,
            },
        ),
        None => Err("Node didn't exist"@),
    }
}

/// The projections of several nodes, or the refusal of the first id that the
/// tree does not hold. `facts` runs beside `ids`; an id beyond its end counts
/// as one that the tree does not hold.
pub open spec fn realized_all(ids: Seq<NodeId>, option: NodeOption, facts: Seq<Option<NodeFacts>>) -> Result<
    Seq<NodeStateView>,
    Seq<char>,
> {
    if forall|i: int| 0 <= i < ids.len() ==> i < facts.len() && (#[trigger] facts[i]) is Some {
        Ok(Seq::new(ids.len(), |i: int| realized(ids[i], option, facts_view(facts[i]))->Ok_0))
    } else {
        Err("Node didn't exist"@)
    }
}

/// The path under which the tree is asked for a request path: below
/// `/root/`, with every backslash read as a slash.
pub open spec fn lookup_path(path: Seq<char>) -> Seq<char> {
    "/root/"@ + substituted(path, '\\', '/')
}

/// Whether two paths differ at most in which of the two separators they use.
pub open spec fn same_but_separators(a: Seq<char>, b: Seq<char>) -> bool {
    &&& a.len() == b.len()
    &&& forall|i: int|
        0 <= i < a.len() ==> a[i] == b[i] || ((a[i] == '\\' || a[i] == '/') && (b[i] == '\\'
            || b[i] == '/'))
}

impl NodeOption {
    /// The fields shown of the root and of a node found by its path: name,
    /// attributes and children, not the path.
    pub fn root() -> (option: NodeOption)
        ensures
            option == (NodeOption { name: true, path: false, attributes: true, children: true }),
    {
        NodeOption { name: true, path: false, attributes: true, children: true }
    }
}

/// Realizes the node `node_id` with the fields that `option` asks for.
/// `facts` is what the tree returned for the id, `None` where it holds no
/// such node: that is refused with `Node didn't exist`.
pub fn realize(node_id: NodeId, option: &NodeOption, facts: Option<NodeFacts>) -> (answer: Result<
    NodeState,
    BadRequest,
>)
    ensures
        answer_view(answer) == realized(node_id, *option, facts_view(facts)),
{
    let node = match facts {
        Some(node) => node,
        None => {
            return Err(BadRequest::new("Node didn't exist"));
        },
    };
    let name = if option.name {
        Some(node.name)
    } else {
        None
    };
    let path = if option.path {
        Some(node.path)
    } else {
        None
    };
    let attributes = if option.attributes {
        Some(node.attributes)
    } else {
        None
    };
    let children = if option.children {
        Some(node.children)
    } else {
        None
    };
    Ok(NodeState { id: node_id, name, path, attributes, children, has_children: node.has_children })
}

/// The root of the tree, with the fields of `NodeOption::root`.
pub fn root(root_id: NodeId, facts: Option<NodeFacts>) -> (answer: Result<NodeState, BadRequest>)
    ensures
        answer_view(answer) == realized(
            root_id,
            NodeOption { name: true, path: false, attributes: true, children: true },
            facts_view(facts),
        ),
{
    let option = NodeOption::root();
    realize(root_id, &option, facts)
}

/// The path to ask the tree for, from the path of a request below `/root/`.
/// `path` is `None` where the request's path is no text; that is refused.
pub fn path_to_look_up(path: Option<&str>) -> (answer: Result<String, BadRequest>)
    ensures
        match path {
            Some(text) => answer is Ok && answer->Ok_0@ == lookup_path(text@),
            None => answer is Err && answer->Err_0@ == "Can't convert path to str"@,
        },
{
    let text = match path {
        Some(text) => text,
        None => {
            return Err(BadRequest::new("Can't convert path to str"));
        },
    };
    let normal = replace_char(text, '\\', "/");
    proof {
        reveal_strlit("/");
        assert("/"@ =~= seq!['/']);
        lemma_replaced_by_one(text@, '\\', '/');
    }
    Ok("/root/".to_owned().concat(normal.as_str()))
}

/// The node found under a path. `found` is the id that the tree holds
/// under the path, with what it holds of that node; `None` where the path
/// leads nowhere, which is refused with `Node id not found`.
pub fn node_by_path(found: Option<(NodeId, Option<NodeFacts>)>) -> (answer: Result<
    NodeState,
    BadRequest,
>)
    ensures
        match found {
            Some((node_id, facts)) => answer_view(answer) == realized(
                node_id,
                NodeOption { name: true, path: false, attributes: true, children: true },
                facts_view(facts),
            ),
            None => answer is Err && answer->Err_0@ == "Node id not found"@,
        },
{
    match found {
        Some((node_id, facts)) => root(node_id, facts),
        None => Err(BadRequest::new("Node id not found")),
    }
}

/// The path of a node as text. `found` is what the tree returned for the
/// node's id; an id that it does not hold is refused with `Can't find node`.
pub fn path(found: Option<String>) -> (answer: Result<String, BadRequest>)
    ensures
        match found {
            Some(text) => answer == Ok::<String, BadRequest>(text),
            None => answer is Err && answer->Err_0@ == "Can't find node"@,
        },
{
    match found {
        Some(text) => Ok(text),
        None => Err(BadRequest::new("Can't find node")),
    }
}

/// What to add to the node of a request for a new attribute, where
/// `node_found` says that the tree holds the node. `None`, sent as `null`,
/// where it does not: nothing is added then.
pub fn attribute<V>(info: AttributeInfo<V>, node_found: bool) -> (added: Option<Attribute<V>>)
    ensures
        added == if node_found {
            Some(Attribute { name: info.name, value: info.value, description: info.description })
        } else {
            None
        },
{
    if node_found {
        Some(Attribute { name: info.name, value: info.value, description: info.description })
    } else {
        None
    }
}

impl NodeIdOption {
    /// Realizes the node of the request.
    pub fn realize(&self, facts: Option<NodeFacts>) -> (answer: Result<NodeState, BadRequest>)
        ensures
            answer_view(answer) == realized(self.node_id, self.option, facts_view(facts)),
    {
        realize(self.node_id, &self.option, facts)
    }
}

impl NodesIdOption {
    /// Realizes the nodes of the request, in its order. `facts` holds, for
    /// each id of the request and in the same order, what the tree returned
    /// for it. One id that the tree does not hold refuses the whole request.
    pub fn realize(&self, facts: Vec<Option<NodeFacts>>) -> (answer: Result<
        Vec<NodeState>,
        BadRequest,
    >)
        ensures
            match answer {
                Ok(states) => realized_all(self.nodes_id@, self.option, facts@) == Ok::<
                    Seq<NodeStateView>,
                    Seq<char>,
                >(states_view(states@)),
                Err(error) => realized_all(self.nodes_id@, self.option, facts@) == Err::<
                    Seq<NodeStateView>,
                    Seq<char>,
                >(error@),
            },
    {
        let ghost all = facts@;
        let wanted = self.nodes_id.len();
        let mut states: Vec<NodeState> = Vec::new();
        let ghost mut seen: int = 0;
        for found in it: facts.into_iter()
            invariant
                it.seq() == all,
                seen == it.index(),
                wanted == self.nodes_id@.len(),
                states@.len() == if it.index() <= wanted { it.index() } else { wanted as int },
                forall|i: int| 0 <= i < states@.len() ==> (#[trigger] all[i]) is Some,
                forall|i: int|
                    0 <= i < states@.len() ==> Ok::<NodeStateView, Seq<char>>((#[trigger] states@[i])@)
                        == realized(self.nodes_id@[i], self.option, facts_view(all[i])),
        {
            if states.len() < wanted {
                let node_id = self.nodes_id[states.len()];
                match realize(node_id, &self.option, found) {
                    Ok(state) => {
                        states.push(state);
                    },
                    Err(error) => {
                        return Err(error);
                    },
                }
            }
            proof {
                seen = seen + 1;
            }
        }
        if states.len() < wanted {
            assert(!(seen < all.len() && all[seen] is Some));
            return Err(BadRequest::new("Node didn't exist"));
        }
        assert(states_view(states@) =~= Seq::new(
            self.nodes_id@.len(),
            |i: int| realized(self.nodes_id@[i], self.option, facts_view(all[i]))->Ok_0,
        ));
        Ok(states)
    }
}

/// The root and a node asked for by the root's id show the same name and
/// the same attributes, whenever the request for the node sets the flags
/// of these two fields as the root's are set.
pub proof fn lemma_root_matches_node(root_id: NodeId, facts: NodeFactsView, option: NodeOption)
    requires
        option.name,
        option.attributes,
    ensures
        realized(
            root_id,
            NodeOption { name: true, path: false, attributes: true, children: true },
            Some(facts),
        ) is Ok,
        realized(root_id, option, Some(facts)) is Ok,
        realized(root_id, option, Some(facts))->Ok_0.id == root_id,
        realized(root_id, option, Some(facts))->Ok_0.name == realized(
            root_id,
            NodeOption { name: true, path: false, attributes: true, children: true },
            Some(facts),
        )->Ok_0.name,
        realized(root_id, option, Some(facts))->Ok_0.attributes == realized(
            root_id,
            NodeOption { name: true, path: false, attributes: true, children: true },
            Some(facts),
        )->Ok_0.attributes,
{
}

/// Two requests for the same node whose flags agree on a field show the
/// same value in that field.
pub proof fn lemma_projection_by_flag(
    node_id: NodeId,
    facts: NodeFactsView,
    first: NodeOption,
    second: NodeOption,
)
    ensures
        first.name == second.name ==> realized(node_id, first, Some(facts))->Ok_0.name == realized(
            node_id,
            second,
            Some(facts),
        )->Ok_0.name,
        first.path == second.path ==> realized(node_id, first, Some(facts))->Ok_0.path == realized(
            node_id,
            second,
            Some(facts),
        )->Ok_0.path,
        first.attributes == second.attributes ==> realized(
            node_id,
            first,
            Some(facts),
        )->Ok_0.attributes == realized(node_id, second, Some(facts))->Ok_0.attributes,
        first.children == second.children ==> realized(
            node_id,
            first,
            Some(facts),
        )->Ok_0.children == realized(node_id, second, Some(facts))->Ok_0.children,
{
}

/// A node that the tree holds is realized under the id it was asked for,
/// whatever fields the request names.
pub proof fn lemma_held_node_resolves(node_id: NodeId, facts: NodeFactsView, option: NodeOption)
    ensures
        realized(node_id, option, Some(facts)) is Ok,
        realized(node_id, option, Some(facts))->Ok_0.id == node_id,
{
}

/// Backslashes in a request path count as slashes: two paths that differ
/// only in which separator they use are looked up under the same path.
pub proof fn lemma_backslash_is_slash(a: Seq<char>, b: Seq<char>)
    requires
        same_but_separators(a, b),
    ensures
        lookup_path(a) == lookup_path(b),
{
    assert(substituted(a, '\\', '/') =~= substituted(b, '\\', '/'));
}

} // verus!
