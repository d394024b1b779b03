use lixiv_backend::mutation::{EdgeMutation, NodeMutation, SchemaMutation};

#[test]
fn delete_reports_whether_a_row_went() {
    assert!(!SchemaMutation.delete_schema(0));
    assert!(SchemaMutation.delete_schema(1));
    assert!(!NodeMutation.delete_node(0));
    assert!(NodeMutation.delete_node(1));
    assert!(!EdgeMutation.delete_edge(0));
    assert!(EdgeMutation.delete_edge(1));
}

#[test]
fn delete_of_many_rows_is_a_delete() {
    assert!(SchemaMutation::default().delete_schema(2));
    assert!(NodeMutation::default().delete_node(u64::MAX));
    assert!(EdgeMutation::default().delete_edge(17));
}
