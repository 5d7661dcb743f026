use cartpole::neat::{Connection, Network, Node, NodeType};

#[test]
fn a_node_keeps_its_id_and_type() {
    let node = Node::new(7, NodeType::Hidden);
    assert_eq!(node.id, 7);
    assert_eq!(node.node_type, NodeType::Hidden);
    assert_eq!(Node::new(-3, NodeType::Output), Node { id: -3, node_type: NodeType::Output });
}

#[test]
fn a_seed_network_numbers_inputs_then_outputs() {
    let net = Network::new(2, 1);
    assert_eq!(
        net.nodes,
        vec![
            Node { id: 1, node_type: NodeType::Input },
            Node { id: 2, node_type: NodeType::Input },
            Node { id: 3, node_type: NodeType::Output },
        ]
    );
    assert_eq!(net.connections, Vec::<Connection>::new());
    assert_eq!(net.fitness_bits, 0);
}

#[test]
fn the_cart_pole_network_has_four_inputs_and_one_output() {
    let net = Network::new(4, 1);
    assert_eq!(net.nodes.len(), 5);
    for (k, node) in net.nodes.iter().enumerate() {
        assert_eq!(node.id, k as i32 + 1);
        assert_eq!(node.node_type, if k < 4 { NodeType::Input } else { NodeType::Output });
    }
}

#[test]
fn a_network_of_nothing_is_empty() {
    assert!(Network::new(0, 0).nodes.is_empty());
    assert!(Network::new(-5, 0).nodes.is_empty());
    assert!(Network::new(-5, -5).nodes.is_empty());
    assert!(Network::new(3, -3).nodes.len() == 3);
}

#[test]
fn outputs_alone_are_numbered_from_one() {
    let net = Network::new(0, 2);
    assert_eq!(
        net.nodes,
        vec![
            Node { id: 1, node_type: NodeType::Output },
            Node { id: 2, node_type: NodeType::Output },
        ]
    );
}

#[test]
fn outputs_follow_on_from_a_negative_input_count() {
    let net = Network::new(-2, 3);
    assert_eq!(
        net.nodes,
        vec![
            Node { id: -1, node_type: NodeType::Output },
            Node { id: 0, node_type: NodeType::Output },
            Node { id: 1, node_type: NodeType::Output },
        ]
    );
}

#[test]
fn zero_fitness_bits_are_a_fitness_of_zero() {
    assert_eq!(f32::from_bits(Network::new(1, 1).fitness_bits), 0.0);
}
