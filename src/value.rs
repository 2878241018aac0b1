use vstd::prelude::*;
use vstd::string::StringExecFns;

verus! {

/// A generic RPC value, as the transport hands it over and takes it back.
///
/// `Other` stands for any value kind that no keyword reads (a double, a date,
/// binary data); it carries the kind's XML-RPC type name.
#[derive(Debug)]
pub enum Value {
    Int(i32),
    Bool(bool),
    Str(String),
    Array(Vec<Value>),
    Struct(Vec<(String, Value)>),
    Other(String),
}

/// The XML-RPC type name of a value.
pub open spec fn kind_name(v: Value) -> Seq<char> {
    match v {
        Value::Int(_) => "i4"@,
        Value::Bool(_) => "boolean"@,
        Value::Str(_) => "string"@,
        Value::Array(_) => "array"@,
        Value::Struct(_) => "struct"@,
        Value::Other(name) => name@,
    }
}

/// `v` is a string value holding the text `s`.
pub open spec fn is_text(v: Value, s: Seq<char>) -> bool {
    match v {
        Value::Str(t) => t@ == s,
        _ => false,
    }
}

/// The text of a string value; empty for any other value.
pub open spec fn text_of(v: Value) -> Seq<char> {
    match v {
        Value::Str(t) => t@,
        _ => Seq::empty(),
    }
}

/// The value of the first entry of `m` with key `key`, if any.
pub open spec fn field_in(m: Seq<(String, Value)>, key: Seq<char>) -> Option<Value>
    decreases m.len(),
{
    if m.len() == 0 {
        None
    } else if m[0].0@ == key {
        Some(m[0].1)
    } else {
        field_in(m.drop_first(), key)
    }
}

/// The value of field `key` of a struct value; none for any other value.
pub open spec fn field_of(v: Value, key: Seq<char>) -> Option<Value> {
    match v {
        Value::Struct(m) => field_in(m@, key),
        _ => None,
    }
}

impl Value {
    /// The XML-RPC type name of this value.
    pub fn kind_name(&self) -> (r: &str)
        ensures
            r@ == kind_name(*self),
    {
        match self {
            Value::Int(_) => "i4",
            Value::Bool(_) => "boolean",
            Value::Str(_) => "string",
            Value::Array(_) => "array",
            Value::Struct(_) => "struct",
            Value::Other(name) => name.as_str(),
        }
    }

    /// The value of field `key`, when this is a struct value that has one.
    pub fn field(&self, key: &str) -> (r: Option<&Value>)
        ensures
            r is Some <==> field_of(*self, key@) is Some,
            r matches Some(v) ==> field_of(*self, key@) == Some(*v),
    {
        match self {
            Value::Struct(m) => {
                let k = String::from_str(key);
                let mut i: usize = 0;
                assert(m@.subrange(0, m@.len() as int) =~= m@);
                while i < m.len()
                    invariant
                        i <= m@.len(),
                        k@ == key@,
                        *self == Value::Struct(*m),
                        field_in(m@, key@) == field_in(m@.subrange(i as int, m@.len() as int), key@),
                    decreases m@.len() - i,
                {
                    let ghost rest = m@.subrange(i as int, m@.len() as int);
                    assert(rest.drop_first() =~= m@.subrange(i + 1, m@.len() as int));
                    assert(rest[0] == m@[i as int]);
                    if m[i].0 == k {
                        return Some(&m[i].1);
                    }
                    i += 1;
                }
                None
            },
            _ => None,
        }
    }
}

} // verus!
