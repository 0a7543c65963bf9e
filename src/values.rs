use vstd::prelude::*;

verus! {

/// The kind of value a field holds; decides how a field value's bytes are read.
#[derive(Copy, Clone, Debug, PartialEq, Eq, Structural)]
pub enum ValueType {
    Text,
    Secret,
    Integer,
    Status,
    Bytes,
    Options,
    Toggle,
}

impl ValueType {
    /// The one-byte wire tag of each kind (an ASCII letter).
    pub open spec fn spec_code(self) -> u8 {
        match self {
            ValueType::Text => 116,
            ValueType::Secret => 115,
            ValueType::Integer => 105,
            ValueType::Status => 99,
            ValueType::Bytes => 98,
            ValueType::Options => 111,
            ValueType::Toggle => 120,
        }
    }

    pub fn code(&self) -> (r: u8)
        ensures
            r == self.spec_code(),
    {
        match self {
            ValueType::Text => 116,
            ValueType::Secret => 115,
            ValueType::Integer => 105,
            ValueType::Status => 99,
            ValueType::Bytes => 98,
            ValueType::Options => 111,
            ValueType::Toggle => 120,
        }
    }

    /// Whether values of this kind are chosen from a list.
    pub fn is_options(&self) -> (r: bool)
        ensures
            r == (*self == ValueType::Options),
    {
        match self {
            ValueType::Options => true,
            _ => false,
        }
    }

    /// The kind whose wire tag is `code`, if any.
    pub fn from_code(code: u8) -> (r: Option<ValueType>)
        ensures
            r matches Some(t) ==> t.spec_code() == code,
            r is None ==> forall|t: ValueType| t.spec_code() != code,
    {
        if code == 116 {
            Some(ValueType::Text)
        } else if code == 115 {
            Some(ValueType::Secret)
        } else if code == 105 {
            Some(ValueType::Integer)
        } else if code == 99 {
            Some(ValueType::Status)
        } else if code == 98 {
            Some(ValueType::Bytes)
        } else if code == 111 {
            Some(ValueType::Options)
        } else if code == 120 {
            Some(ValueType::Toggle)
        } else {
            None
        }
    }
}

/// A field's value before any device has set it.
#[derive(Clone, Debug)]
pub enum DefaultValue {
    Empty,
    Text(&'static str),
    Integer(i64),
    Options(&'static [u16]),
    Bytes(&'static [u8]),
    Enabled(bool),
}

} // verus!