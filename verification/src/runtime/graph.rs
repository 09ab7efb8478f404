//! Captured graphs: what their nodes are, and how driver errors read.
use crate::error::{unsupported_plan, AegisError, Value, Values};
use vstd::prelude::*;

verus! {

/// What a node of a captured graph does, as far as replay can patch it.
#[derive(Debug, Clone, Copy, PartialEq, Eq, Structural)]
pub enum GraphNodeKind {
    Kernel,
    Memcpy,
    Memset,
    Other,
}

/// A node of a captured graph: the driver's handle and the node's kind.
#[derive(Debug, Clone, Copy, PartialEq, Eq, Structural)]
pub struct GraphNode {
    pub handle: u64,
    pub kind: GraphNodeKind,
}

/// The kind of a node of the driver's type `code`: 0 launches a kernel, 1 copies, 2 fills.
pub open spec fn kind_of(code: u32) -> GraphNodeKind {
    if code == 0 {
        GraphNodeKind::Kernel
    } else if code == 1 {
        GraphNodeKind::Memcpy
    } else if code == 2 {
        GraphNodeKind::Memset
    } else {
        GraphNodeKind::Other
    }
}

/// The kind of a node of the driver's type `code`.
pub fn node_kind(code: u32) -> (kind: GraphNodeKind)
    ensures
        kind == kind_of(code),
{
    if code == 0 {
        GraphNodeKind::Kernel
    } else if code == 1 {
        GraphNodeKind::Memcpy
    } else if code == 2 {
        GraphNodeKind::Memset
    } else {
        GraphNodeKind::Other
    }
}

/// The nodes of a graph in the driver's order: the first `types.len()` handles, each with
/// its kind.
pub fn enumerate_graph_nodes(handles: &Vec<u64>, types: &Vec<u32>) -> (nodes: Vec<GraphNode>)
    requires
        types@.len() <= handles@.len(),
    ensures
        nodes@ == Seq::new(
            types@.len(),
            |i: int| GraphNode { handle: handles@[i], kind: kind_of(types@[i]) },
        ),
{
    let mut nodes: Vec<GraphNode> = Vec::new();
    let mut i: usize = 0;
    while i < types.len()
        invariant
            i <= types@.len() <= handles@.len(),
            nodes@ == Seq::new(
                i as nat,
                |k: int| GraphNode { handle: handles@[k], kind: kind_of(types@[k]) },
            ),
        decreases types@.len() - i,
    {
        nodes.push(GraphNode { handle: handles[i], kind: node_kind(types[i]) });
        i += 1;
        assert(nodes@ =~= Seq::new(
            i as nat,
            |k: int| GraphNode { handle: handles@[k], kind: kind_of(types@[k]) },
        ));
    }
    nodes
}

/// What a driver call comes to: code zero is success; `shown` is how the driver's code
/// reads.
pub fn cu_check(label: &'static str, code: u32, shown: String) -> (outcome: Result<(), AegisError>)
    ensures
        code == 0 ==> outcome == Ok::<(), AegisError>(()),
        code != 0 ==> outcome == Err::<(), _>(
            AegisError::unsupported_with(
                "{}: CUresult={}",
                Values::Two(Value::Label(label), Value::Name(shown)),
            ),
        ),
{
    if code == 0 {
        Ok(())
    } else {
        Err(
            unsupported_plan(
                "{}: CUresult={}",
                Values::Two(Value::Label(label), Value::Name(shown)),
            ),
        )
    }
}

} // verus!
