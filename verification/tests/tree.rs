use datacore::TreeNode;

#[test]
fn test_leaf_counts_one() {
    let n = TreeNode::new(0);
    assert_eq!(n.count_nodes(), 1);
}

#[test]
fn test_count_with_children() {
    let mut root = TreeNode::new(1);
    root.add_child(TreeNode::new(2));
    root.add_child(TreeNode::new(3));
    assert_eq!(root.count_nodes(), 3);
}

#[test]
fn test_count_nested() {
    let mut child = TreeNode::new(2);
    child.add_child(TreeNode::new(3));
    child.add_child(TreeNode::new(4));
    let mut root = TreeNode::new(1);
    root.add_child(child);
    root.add_child(TreeNode::new(5));
    assert_eq!(root.count_nodes(), 5);
}

#[test]
fn test_value_is_kept() {
    let mut root = TreeNode::new(String::from("root"));
    root.add_child(TreeNode::new(String::from("leaf")));
    assert_eq!(root.value, "root");
    assert_eq!(root.children[0].value, "leaf");
}
