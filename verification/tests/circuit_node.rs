use splinter_store::admin::circuit_node::CircuitNode;
use splinter_store::admin::circuit_node::CircuitNodeBuilder;
use splinter_store::admin::proposed_node::ProposedNode;

#[test]
fn builder_builds_node_with_all_parts() {
    let node = CircuitNodeBuilder::new()
        .with_node_id("node-1")
        .with_endpoints(&["tcps://host:8044".to_string()])
        .with_public_key(&[1u8, 2, 3])
        .build()
        .unwrap();
    assert_eq!(node.node_id(), "node-1");
    assert_eq!(node.endpoints(), &["tcps://host:8044".to_string()]);
    assert_eq!(node.public_key(), &Some(vec![1u8, 2, 3]));
}

#[test]
fn builder_starts_empty_and_reports_what_was_set() {
    let builder = CircuitNodeBuilder::new();
    assert_eq!(builder.node_id(), None);
    assert_eq!(builder.endpoints(), None);
    assert_eq!(builder.public_key(), None);
    let default_builder = CircuitNodeBuilder::default();
    assert_eq!(default_builder.node_id(), None);
    assert_eq!(default_builder.endpoints(), None);
    assert_eq!(default_builder.public_key(), None);

    let builder = builder.with_node_id("alpha");
    assert_eq!(builder.node_id(), Some("alpha".to_string()));
    assert_eq!(builder.endpoints(), None);
    let builder = builder.with_endpoints(&["tcp://a:1".to_string(), "tcp://b:2".to_string()]);
    assert_eq!(
        builder.endpoints(),
        Some(vec!["tcp://a:1".to_string(), "tcp://b:2".to_string()])
    );
    assert_eq!(builder.node_id(), Some("alpha".to_string()));
    assert_eq!(builder.public_key(), None);
    let builder = builder.with_public_key(&[]);
    assert_eq!(builder.public_key(), Some(vec![]));
}

#[test]
fn builder_setters_replace_earlier_values() {
    let node = CircuitNodeBuilder::new()
        .with_node_id("first")
        .with_endpoints(&["tcp://old:1".to_string()])
        .with_public_key(&[9])
        .with_node_id("second")
        .with_endpoints(&[])
        .with_public_key(&[7, 7])
        .build()
        .unwrap();
    assert_eq!(node.node_id(), "second");
    assert!(node.endpoints().is_empty());
    assert_eq!(node.public_key(), &Some(vec![7, 7]));
}

#[test]
fn build_without_node_id_fails() {
    let err = CircuitNodeBuilder::new()
        .with_endpoints(&["tcp://a:1".to_string()])
        .build()
        .unwrap_err();
    assert_eq!(err.message(), "unable to build, missing field: `node_id`");
    // the identifier is asked for before the endpoints
    let err = CircuitNodeBuilder::new().build().unwrap_err();
    assert_eq!(err.message(), "unable to build, missing field: `node_id`");
}

#[test]
fn build_without_endpoints_fails() {
    let err = CircuitNodeBuilder::new()
        .with_node_id("node-1")
        .with_public_key(&[1])
        .build()
        .unwrap_err();
    assert_eq!(err.message(), "unable to build, missing field: `endpoints`");
}

#[test]
fn build_without_public_key_succeeds() {
    let node = CircuitNodeBuilder::new()
        .with_node_id("node-1")
        .with_endpoints(&["tcp://a:1".to_string()])
        .build()
        .unwrap();
    assert_eq!(node.public_key(), &None);
    assert_eq!(node.node_id(), "node-1");
}

#[test]
fn circuit_node_from_proposed_node_keeps_all_parts() {
    let proposed = ProposedNode::new(
        "node-9".to_string(),
        vec!["tcps://x:1".to_string(), "tcps://y:2".to_string()],
        Some(vec![4, 5, 6]),
    );
    assert_eq!(proposed.node_id(), "node-9");
    assert_eq!(proposed.endpoints().len(), 2);
    assert_eq!(proposed.public_key(), &Some(vec![4, 5, 6]));

    let by_reference = CircuitNode::from(&proposed);
    assert_eq!(by_reference.node_id(), "node-9");
    assert_eq!(
        by_reference.endpoints(),
        &["tcps://x:1".to_string(), "tcps://y:2".to_string()]
    );
    assert_eq!(by_reference.public_key(), &Some(vec![4, 5, 6]));

    let by_value = CircuitNode::from(proposed);
    assert_eq!(by_value, by_reference);
    let built = CircuitNodeBuilder::new()
        .with_node_id("node-9")
        .with_endpoints(&["tcps://x:1".to_string(), "tcps://y:2".to_string()])
        .with_public_key(&[4, 5, 6])
        .build()
        .unwrap();
    assert_eq!(built, by_value);
    assert_eq!(built.clone(), built);
}
