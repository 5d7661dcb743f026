//! Seed topology for a neuro-evolution network: typed nodes numbered from one,
//! inputs first, outputs after them, and no connections yet.

use vstd::prelude::*;

verus! {

/// The role a node plays in a network.
#[derive(Debug, Clone, Copy, PartialEq, Eq, Structural)]
pub enum NodeType {
    Input,
    Hidden,
    Output,
}

/// A network node: an identifier and a role.
#[derive(Debug, Clone, Copy, PartialEq, Eq, Structural)]
pub struct Node {
    pub id: i32,
    pub node_type: NodeType,
}

impl Node {
    pub fn new(id: i32, node_type: NodeType) -> (node: Node)
        ensures
            node.id == id,
            node.node_type == node_type,
    {
        Node { id, node_type }
    }
}

/// A directed, weighted link between two nodes.
///
/// The weight is kept as the 32 bits of its IEEE-754 encoding, so that the
/// record stays a plain value that can be compared and copied exactly.
#[derive(Debug, Clone, Copy, PartialEq, Eq, Structural)]
pub struct Connection {
    pub in_node: i32,
    pub out_node: i32,
    pub weight_bits: u32,
    pub enabled: bool,
    pub inno: i32,
}

/// A network under evolution.
///
/// `fitness_bits` is the IEEE-754 encoding of the fitness; zero bits encode
/// a fitness of zero.
#[derive(Debug, PartialEq, Eq)]
pub struct Network {
    pub nodes: Vec<Node>,
    pub connections: Vec<Connection>,
    pub fitness_bits: u32,
}

/// How many numbers lie in the half-open range `lo..hi`.
pub open spec fn span(lo: int, hi: int) -> nat {
    if hi > lo {
        (hi - lo) as nat
    } else {
        0
    }
}

/// The nodes a fresh network starts with: inputs numbered `1..=num_inputs`,
/// then outputs numbered `num_inputs + 1 ..= num_inputs + num_outputs`.
pub open spec fn seed_nodes(num_inputs: int, num_outputs: int) -> Seq<Node> {
    Seq::new(span(0, num_inputs), |k: int| Node { id: (k + 1) as i32, node_type: NodeType::Input })
        + Seq::new(
        span(num_inputs, num_inputs + num_outputs),
        |k: int| Node { id: (num_inputs + k + 1) as i32, node_type: NodeType::Output },
    )
}

impl Network {
    /// Builds the seed network for the given numbers of inputs and outputs.
    pub fn new(num_inputs: i32, num_outputs: i32) -> (net: Network)
        requires
            i32::MIN <= num_inputs + num_outputs <= i32::MAX,
        ensures
            net.nodes@ == seed_nodes(num_inputs as int, num_outputs as int),
            net.connections@.len() == 0,
            net.fitness_bits == 0,
    {
        let mut nodes: Vec<Node> = Vec::new();
        let mut i: i32 = 0;
        while i < num_inputs
            invariant
                0 <= i,
                i <= num_inputs || i == 0,
                nodes@.len() == span(0, i as int),
                forall|k: int|
                    0 <= k < nodes@.len() ==> nodes@[k] == (Node {
                        id: (k + 1) as i32,
                        node_type: NodeType::Input,
                    }),
            decreases num_inputs - i,
        {
            nodes.push(Node::new(i + 1, NodeType::Input));
            i = i + 1;
        }
        let ghost inputs = nodes@;
        let end: i32 = num_inputs + num_outputs;
        let mut j: i32 = num_inputs;
        while j < end
            invariant
                num_inputs <= j,
                j <= end || j == num_inputs,
                end == num_inputs + num_outputs,
                inputs.len() == span(0, num_inputs as int),
                nodes@.len() == inputs.len() + span(num_inputs as int, j as int),
                forall|k: int|
                    0 <= k < inputs.len() ==> nodes@[k] == (Node {
                        id: (k + 1) as i32,
                        node_type: NodeType::Input,
                    }),
                forall|k: int|
                    inputs.len() <= k < nodes@.len() ==> nodes@[k] == (Node {
                        id: (num_inputs + (k - inputs.len()) + 1) as i32,
                        node_type: NodeType::Output,
                    }),
            decreases end - j,
        {
            nodes.push(Node::new(j + 1, NodeType::Output));
            j = j + 1;
        }
        Network { nodes, connections: Vec::new(), fitness_bits: 0 }
    }
}

} // verus!
