use query_builder::{delete, insert, select, update, Join, Order};

#[test]
fn test_build_twice_identical() {
    let query_builder = select("users").fields(&["id"]).limit(3);
    let first = query_builder.build();
    let second = query_builder.build();
    assert_eq!(first, second);
    assert_eq!("SELECT id FROM users LIMIT 3;", first);
}

#[test]
fn test_set_last_write_wins() {
    let query = insert("users").set("name", "$1").set("name", "$2").build();
    assert_eq!("INSERT INTO users (name) VALUES ($2);", query);
}

#[test]
fn test_update_set_last_write_wins() {
    let query = update("users").set("karma", "1").set("karma", "2").build();
    assert_eq!("UPDATE users SET karma = 2;", query);
}

#[test]
fn test_insert_returning() {
    let query = insert("users")
        .set("name", "$1")
        .returning("id")
        .returning("name")
        .build();
    assert_eq!("INSERT INTO users (name) VALUES ($1) RETURNING id, name;", query);
}

#[test]
fn test_update_returning_after_where() {
    let query = update("users")
        .set("karma", "0")
        .filter("id = $1")
        .returning("karma")
        .build();
    assert_eq!("UPDATE users SET karma = 0 WHERE id = $1 RETURNING karma;", query);
}

#[test]
fn test_limit_zero_and_offset_zero_omitted() {
    let query = select("users").limit(0).offset(0).build();
    assert_eq!("SELECT * FROM users;", query);
}

#[test]
fn test_limit_last_call_wins() {
    let query = select("users").limit(7).limit(1234567890).build();
    assert_eq!("SELECT * FROM users LIMIT 1234567890;", query);
}

#[test]
fn test_alias_other_table_not_applied() {
    let query = select("users").alias("posts", "p").build();
    assert_eq!("SELECT * FROM users;", query);
}

#[test]
fn test_alias_last_one_wins() {
    let query = select("users").alias("users", "u").alias("users", "w").build();
    assert_eq!("SELECT * FROM users AS w;", query);
}

#[test]
fn test_inner_join_without_alias() {
    let query = select("users")
        .join("posts", "posts.user_id", "users.id", Join::Inner)
        .build();
    assert_eq!("SELECT * FROM users INNER JOIN posts ON posts.user_id = users.id;", query);
}

#[test]
fn test_joins_render_in_call_order() {
    let query = select("users")
        .join("posts", "posts.user_id", "users.id", Join::Left)
        .join("votes", "votes.user_id", "users.id", Join::Inner)
        .build();
    assert_eq!(
        "SELECT * FROM users LEFT JOIN posts ON posts.user_id = users.id \
         INNER JOIN votes ON votes.user_id = users.id;",
        query
    );
}

#[test]
fn test_order_items_have_no_separator() {
    let query = select("users")
        .order_by("id", Order::Asc)
        .order_by("name", Order::Desc)
        .build();
    assert_eq!("SELECT * FROM users ORDER BY id ASCname DESC;", query);
}

#[test]
fn test_fields_calls_append() {
    let query = select("users").fields(&["id"]).fields(&["name"]).build();
    assert_eq!("SELECT id, name FROM users;", query);
}

#[test]
fn test_group_by_and_having_in_order() {
    let query = select("users")
        .filter("karma > 0")
        .group_by("name")
        .group_by("karma")
        .having("max > 100")
        .having("min < 5")
        .order_by("name", Order::Asc)
        .build();
    assert_eq!(
        "SELECT * FROM users WHERE karma > 0 GROUP BY name, karma \
         HAVING max > 100 AND min < 5 ORDER BY name ASC;",
        query
    );
}

#[test]
fn test_delete_single_condition() {
    let query = delete("users").filter("id = $1").build();
    assert_eq!("DELETE FROM users WHERE id = $1;", query);
}

#[test]
fn test_every_render_ends_with_one_semicolon() {
    let queries = vec![
        delete("users").filter("id = $1").build(),
        insert("users").set("name", "$1").build(),
        select("users").limit(9).offset(18).build(),
        update("users").set("karma", "0").returning("id").build(),
    ];
    for query in queries {
        assert!(query.ends_with(';'));
        assert!(!query.ends_with(";;"));
    }
}
