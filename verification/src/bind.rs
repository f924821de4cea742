use vstd::prelude::*;

verus! {

/// A value bound to one placeholder of a parameterized SQL statement.
///
/// The persistence contract reduces every entity field to one of these plain
/// shapes; the unverified driver translates them one-for-one into the
/// database engine's own parameter values.
#[derive(Debug, Clone, PartialEq, Eq)]
pub enum BindValue {
    /// SQL NULL, bound for an absent optional field.
    Null,
    /// An integer parameter.
    Int(i64),
    /// A text parameter.
    Text(String),
}

/// The binding of an optional text field: its text, or NULL when absent.
pub open spec fn opt_text(o: Option<String>) -> BindValue {
    match o {
        Some(s) => BindValue::Text(s),
        None => BindValue::Null,
    }
}

/// The binding of an optional integer field: its value, or NULL when absent.
pub open spec fn opt_int(o: Option<i64>) -> BindValue {
    match o {
        Some(v) => BindValue::Int(v),
        None => BindValue::Null,
    }
}

/// The binding of an optional unsigned field: its value, or NULL when
/// absent.
pub open spec fn opt_u32_int(o: Option<u32>) -> BindValue {
    match o {
        Some(v) => BindValue::Int(v as i64),
        None => BindValue::Null,
    }
}

/// Bind an optional text field.
pub fn bind_opt_text(o: &Option<String>) -> (r: BindValue)
    ensures
        r == opt_text(*o),
{
    match o {
        Some(s) => BindValue::Text(s.clone()),
        None => BindValue::Null,
    }
}

/// Bind an optional integer field.
pub fn bind_opt_int(o: &Option<i64>) -> (r: BindValue)
    ensures
        r == opt_int(*o),
{
    match o {
        Some(v) => BindValue::Int(*v),
        None => BindValue::Null,
    }
}

/// Bind an optional unsigned field.
pub fn bind_opt_u32(o: &Option<u32>) -> (r: BindValue)
    ensures
        r == opt_u32_int(*o),
{
    match o {
        Some(v) => BindValue::Int(*v as i64),
        None => BindValue::Null,
    }
}

} // verus!
