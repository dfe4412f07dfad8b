use crustchan::clock::UtcTime;
use crustchan::models::Admin;
use crustchan::rejections::InvalidUser;
use crustchan::dynamodb::{
    admin_lookup_result,
    admin_by_username_query, any_admin_scan, boards_scan, post_by_id_query, posts_by_board_query,
    ADMIN_TABLE_NAME, BOARDS_TABLE_NAME, POSTS_TABLE_NAME, TABLES,
};

#[test]
fn keyed_queries() {
    let q = posts_by_board_query("b1".to_string());
    assert_eq!(q.table_name, "crustchan-posts");
    assert_eq!(q.index_name.as_deref(), Some("board-index"));
    assert_eq!(q.key_condition_expression.as_deref(), Some("board_id = :inputboard"));
    assert_eq!(q.expression_attribute_values, vec![(":inputboard".to_string(), "b1".to_string())]);
    assert_eq!(q.limit, None);

    let q = post_by_id_query("p1".to_string());
    assert_eq!(q.table_name, POSTS_TABLE_NAME);
    assert_eq!(q.index_name, None);
    assert_eq!(q.key_condition_expression.as_deref(), Some("id = :inputpost"));
    assert_eq!(q.expression_attribute_values, vec![(":inputpost".to_string(), "p1".to_string())]);

    let q = admin_by_username_query("root".to_string());
    assert_eq!(q.table_name, "crustchan-admin");
    assert_eq!(q.index_name.as_deref(), Some("username-index"));
    assert_eq!(q.key_condition_expression.as_deref(), Some("username = :inputname"));
    assert_eq!(q.expression_attribute_values, vec![(":inputname".to_string(), "root".to_string())]);
}

#[test]
fn scans() {
    let s = any_admin_scan();
    assert_eq!(s.table_name, ADMIN_TABLE_NAME);
    assert_eq!(s.limit, Some(1));
    assert!(s.expression_attribute_values.is_empty());
    let s = boards_scan();
    assert_eq!(s.table_name, BOARDS_TABLE_NAME);
    assert_eq!(s.table_name, "crustchan-boards");
    assert_eq!(s.limit, None);
    assert_eq!(TABLES, ["posts", "boards", "admin"]);
}

#[test]
fn admin_lookups() {
    let a = Admin {
        id: "i".to_string(),
        username: "admin".to_string(),
        password: "h".to_string(),
        created_at: UtcTime { secs: 0, nanos: 0 },
    };
    assert_eq!(admin_lookup_result(false, Some(a.clone())).err(), Some(InvalidUser));
    assert_eq!(admin_lookup_result(true, None).err(), Some(InvalidUser));
    assert_eq!(admin_lookup_result(true, Some(a)).unwrap().username, "admin");
}
