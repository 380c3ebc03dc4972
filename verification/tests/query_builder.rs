use query_builder::{Postgres, QueryBuilder};

#[test]
fn test_new() {
    let qb: QueryBuilder<'_, Postgres> = QueryBuilder::new("SELECT * FROM users");
    assert_eq!(qb.sql(), "SELECT * FROM users");
}

#[test]
fn test_push() {
    let mut qb: QueryBuilder<'_, Postgres> = QueryBuilder::new("SELECT * FROM users");
    let second_line = "WHERE last_name LIKE '[A-N]%;";
    qb.push(second_line);

    assert_eq!(
        qb.sql(),
        "SELECT * FROM users WHERE last_name LIKE '[A-N]%;".to_string(),
    );
}

#[test]
fn test_push_bind() {
    let mut qb: QueryBuilder<'_, Postgres> =
        QueryBuilder::new("SELECT * FROM users WHERE id = ");

    qb.push_bind(42i32)
        .push("OR membership_level = ")
        .push_bind(3i32);

    assert_eq!(
        qb.sql(),
        "SELECT * FROM users WHERE id = $1 OR membership_level = $2"
    );
    assert_eq!(*qb.arguments().unwrap(), vec![0, 0, 0, 42u8, 0, 0, 0, 3u8]);
}

#[test]
fn test_push_bind_handles_strings() {
    let mut qb: QueryBuilder<'_, Postgres> =
        QueryBuilder::new("SELECT * FROM users WHERE id = ");

    qb.push_bind(42i32)
        .push("AND last_name = ")
        .push_bind("'Doe'")
        .push("AND membership_level = ")
        .push_bind(3i32);

    assert_eq!(
        qb.sql(),
        "SELECT * FROM users WHERE id = $1 AND last_name = $2 AND membership_level = $3"
    );
    assert_eq!(
        *qb.arguments().unwrap(),
        vec![0, 0, 0, 42u8, 39, 68, 111, 101, 39, 0, 0, 0, 3u8]
    );
}

#[test]
fn test_build() {
    let mut qb: QueryBuilder<'_, Postgres> = QueryBuilder::new("SELECT * FROM users");

    qb.push("WHERE id = ").push_bind(42i32);
    let query = qb.build();

    assert_eq!(
        query.statement.unwrap_left(),
        "SELECT * FROM users WHERE id = $1"
    );
    assert_eq!(query.arguments.unwrap().as_slice(), vec![0, 0, 0, 42u8]);
    assert_eq!(query.persistent, true);
}
