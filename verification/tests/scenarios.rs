use either::Either;
use query_builder::{Postgres, Query, QueryBuilder};

#[test]
fn two_integer_binds_build_into_numbered_statement() {
    let mut qb: QueryBuilder<'_, Postgres> =
        QueryBuilder::new("SELECT * FROM users WHERE id = ");
    let query: Query<'_, Postgres, Vec<u8>> = qb
        .push_bind(42i32)
        .push("OR membership_level = ")
        .push_bind(3i32)
        .build();

    assert_eq!(
        query.statement,
        Either::Left("SELECT * FROM users WHERE id = $1 OR membership_level = $2")
    );
    let mut expected = 42i32.to_be_bytes().to_vec();
    expected.extend_from_slice(&3i32.to_be_bytes());
    assert_eq!(query.arguments, Some(expected));
    assert_eq!(query.arguments, Some(vec![0, 0, 0, 42, 0, 0, 0, 3]));
    assert!(query.persistent);
}

#[test]
fn text_between_integers_is_bound_without_delimiters() {
    let mut qb: QueryBuilder<'_, Postgres> =
        QueryBuilder::new("SELECT * FROM users WHERE id = ");
    let query = qb
        .push_bind(42i32)
        .push("AND last_name = ")
        .push_bind("'Doe'")
        .push("AND membership_level = ")
        .push_bind(3i32)
        .build();

    assert_eq!(
        query.statement.left(),
        Some("SELECT * FROM users WHERE id = $1 AND last_name = $2 AND membership_level = $3")
    );
    let mut expected = 42i32.to_be_bytes().to_vec();
    expected.extend_from_slice("'Doe'".as_bytes());
    expected.extend_from_slice(&3i32.to_be_bytes());
    assert_eq!(expected.len(), 13);
    assert_eq!(query.arguments, Some(expected));
}

#[test]
fn built_query_is_always_persistent_and_left() {
    let mut qb: QueryBuilder<'_, Postgres> = QueryBuilder::new("DELETE FROM t");
    {
        let first = qb.build();
        assert!(first.persistent);
        assert!(first.statement.is_left());
    }
    qb.push("WHERE 1 = 1");
    let second = qb.build();
    assert!(second.persistent);
    assert_eq!(second.statement, Either::Left("DELETE FROM t WHERE 1 = 1"));
}
