use libtmsu::sql::{SqlBuilder, SqlValue};

#[test]
fn test_sql_builder() {
    let mut builder = SqlBuilder::new();

    let values = vec![
        SqlValue::Text("hello".to_string()),
        SqlValue::Text("there".to_string()),
    ];

    builder.push_sql("SELECT (");
    builder.push_parameterised_values(&values);
    builder.push_sql(") FROM users");
    builder.push_sql("WHERE id = ");
    builder.push_parameter(SqlValue::Integer(1));

    assert_eq!(
        "SELECT ( (?1), (?2) ) FROM users WHERE id = ?3",
        builder.to_string()
    );

    let expected_parameters = vec![
        SqlValue::Text("hello".to_string()),
        SqlValue::Text("there".to_string()),
        SqlValue::Integer(1),
    ];
    assert_eq!(expected_parameters, builder.parameters())
}

#[test]
fn push_sql_adds_one_space_only_where_needed() {
    let mut builder = SqlBuilder::new();
    builder.push_sql("SELECT");
    builder.push_sql("");
    builder.push_sql("1");
    builder.push_sql(" AS x");
    builder.push_sql("\nFROM t");
    assert_eq!("SELECT 1 AS x\nFROM t", builder.to_string());
}

#[test]
fn placeholders_count_past_nine() {
    let mut builder = SqlBuilder::new();
    for _ in 0..12 {
        builder.push_parameter_string("x".to_string());
    }
    assert_eq!("?1?2?3?4?5?6?7?8?9?10?11?12", builder.to_string());
    assert_eq!(12, builder.parameters().len());
}
