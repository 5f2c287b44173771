use query_builder::{delete, insert, select, update, Join, Order};

#[test]
fn test_debug() {
    let query_builder = select("users");
    let query = format!("{:?}", query_builder);
    assert_eq!(
        "Select { table: \"users\", aliases: [], fields: [], order: [], \
         joins: [], groupings: [], havings: [], conditions: [], limit: 0, offset: 0 }",
        query
    );
}

#[test]
fn test_display() {
    let query_builder = select("users");
    let query = query_builder.build();
    assert_eq!("SELECT * FROM users;", query);
}

#[test]
fn test_delete_query() {
    let query = delete("users").build();
    assert_eq!("DELETE FROM users;", query);
}

#[test]
fn test_delete_query_with_conditions() {
    let query = delete("users")
        .filter("name = $1")
        .filter("karma <= $2")
        .build();
    assert_eq!("DELETE FROM users WHERE name = $1 AND karma <= $2;", query);
}

#[test]
fn test_insert_query() {
    let query = insert("users").set("name", "$1").set("karma", "$2").build();
    let possibility1 = "INSERT INTO users (name, karma) VALUES ($1, $2);" == query;
    let possibility2 = "INSERT INTO users (karma, name) VALUES ($2, $1);" == query;
    assert!(possibility1 || possibility2);
}

#[test]
fn test_select_query() {
    let query = select("users").build();
    assert_eq!("SELECT * FROM users;", query);
}

#[test]
fn test_select_query_with_fields() {
    let query = select("users").fields(&["id", "name"]).build();
    assert_eq!("SELECT id, name FROM users;", query);
}

#[test]
fn test_select_query_with_alias() {
    let query = select("users")
        .alias("users", "u")
        .fields(&["id", "name"])
        .build();
    assert_eq!("SELECT id, name FROM users AS u;", query);
}

#[test]
fn test_select_query_with_limit() {
    let query = select("users").fields(&["id", "name"]).limit(15).build();
    assert_eq!("SELECT id, name FROM users LIMIT 15;", query);
}

#[test]
fn test_select_query_with_offset() {
    let query = select("users")
        .fields(&["id", "name"])
        .limit(15)
        .offset(30)
        .build();
    assert_eq!("SELECT id, name FROM users LIMIT 15 OFFSET 30;", query);
}

#[test]
fn test_select_query_with_group() {
    let query = select("users")
        .fields(&["id", "name", "MAX(karma) AS max"])
        .group_by("name")
        .having("max > 100")
        .build();
    assert_eq!(
        "SELECT id, name, MAX(karma) AS max FROM users GROUP BY name HAVING max > 100;",
        query
    );
}

#[test]
fn test_select_query_with_conditions() {
    let query = select("users")
        .fields(&["id", "name"])
        .filter("id = $1")
        .filter("name = $2")
        .build();
    assert_eq!("SELECT id, name FROM users WHERE id = $1 AND name = $2;", query);
}

#[test]
fn test_select_query_with_order() {
    let query = select("users")
        .fields(&["id", "name"])
        .filter("name = $1")
        .order_by("id", Order::Asc)
        .build();
    assert_eq!("SELECT id, name FROM users WHERE name = $1 ORDER BY id ASC;", query);
}

#[test]
fn test_select_query_with_join() {
    let query = select("users")
        .fields(&["id", "name"])
        .filter("name = $1")
        .alias("posts", "p")
        .join("posts", "p.user_id", "users.id", Join::Left)
        .build();
    assert_eq!(
        "SELECT id, name FROM users LEFT JOIN posts AS p ON p.user_id = users.id WHERE name = $1;",
        query
    );
}

#[test]
fn test_update_query() {
    let query = update("users")
        .set("karma", "0")
        .set("last_login", "1970-01-01")
        .build();
    let possibility1 = "UPDATE users SET karma = 0 AND last_login = 1970-01-01;" == query;
    let possibility2 = "UPDATE users SET last_login = 1970-01-01 AND karma = 0;" == query;
    assert!(possibility1 || possibility2);
}

#[test]
fn test_update_query_with_conditions() {
    let query = update("users")
        .set("karma", "0")
        .filter("name = $1")
        .filter("last_login < $2")
        .build();
    assert_eq!("UPDATE users SET karma = 0 WHERE name = $1 AND last_login < $2;", query);
}
