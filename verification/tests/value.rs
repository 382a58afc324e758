use convoy_graphql::{ConstValue, FromConstValue, GraphQLType, ToConstValue};

#[test]
fn test_primitive_conversions() {
    assert_eq!(42i64.to_const_value(), ConstValue::Number(42));
    assert_eq!(i64::from_const_value(&ConstValue::Number(42)), Ok(42));

    assert_eq!(true.to_const_value(), ConstValue::Boolean(true));
    assert_eq!(bool::from_const_value(&ConstValue::Boolean(true)), Ok(true));

    assert_eq!(
        "hello".to_string().to_const_value(),
        ConstValue::String("hello".to_string())
    );
    assert_eq!(
        String::from_const_value(&ConstValue::String("hello".to_string())),
        Ok("hello".to_string())
    );
}

#[test]
fn test_option_conversions() {
    let some_val: Option<i64> = Some(42);
    assert_eq!(some_val.to_const_value(), ConstValue::Number(42));

    let none_val: Option<i64> = None;
    assert_eq!(none_val.to_const_value(), ConstValue::Null);

    assert_eq!(Option::<i64>::from_const_value(&ConstValue::Number(42)), Ok(Some(42)));
    assert_eq!(Option::<i64>::from_const_value(&ConstValue::Null), Ok(None));
}

#[test]
fn test_vec_conversions() {
    let vec = vec![1i64, 2, 3];
    let expected = ConstValue::List(vec![
        ConstValue::Number(1),
        ConstValue::Number(2),
        ConstValue::Number(3),
    ]);
    assert_eq!(vec.to_const_value(), expected);

    assert_eq!(Vec::<i64>::from_const_value(&expected), Ok(vec![1, 2, 3]));
}

#[test]
fn test_conversion_errors() {
    assert_eq!(
        i64::from_const_value(&ConstValue::Boolean(true)),
        Err("Expected number".to_string())
    );
    assert_eq!(
        bool::from_const_value(&ConstValue::Number(1)),
        Err("Expected boolean".to_string())
    );
    assert_eq!(
        String::from_const_value(&ConstValue::Null),
        Err("Expected string".to_string())
    );
    assert_eq!(
        Vec::<i64>::from_const_value(&ConstValue::Number(3)),
        Err("Expected list".to_string())
    );
    // A list errs as soon as one element cannot be read.
    let mixed = ConstValue::List(vec![ConstValue::Number(1), ConstValue::Boolean(false)]);
    assert_eq!(Vec::<i64>::from_const_value(&mixed), Err("Expected number".to_string()));
}

#[test]
fn test_i32_range_checked() {
    assert_eq!(i32::from_const_value(&ConstValue::Number(42)), Ok(42));
    assert_eq!(
        i32::from_const_value(&ConstValue::Number(i64::from(i32::MAX) + 1)),
        Err("Expected i32".to_string())
    );
    assert_eq!(7i32.to_const_value(), ConstValue::Number(7));
}

#[test]
fn test_graphql_type_names() {
    assert_eq!(<i32 as GraphQLType>::graphql_name(), "Int");
    assert_eq!(<i64 as GraphQLType>::graphql_name(), "Int");
    assert_eq!(<bool as GraphQLType>::graphql_name(), "Boolean");
    assert_eq!(<String as GraphQLType>::graphql_name(), "String");
    assert_eq!(<Option<i64> as GraphQLType>::graphql_name(), "Int");
    assert_eq!(<Vec<String> as GraphQLType>::graphql_name(), "String");
}

#[test]
fn test_graphql_type_scalar_flags() {
    assert!(<i64 as GraphQLType>::is_scalar());
    assert!(<String as GraphQLType>::is_scalar());
    assert!(<Option<bool> as GraphQLType>::is_scalar());
    assert!(!<Vec<i64> as GraphQLType>::is_scalar());
}
