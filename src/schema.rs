//! Typed, optionally enumerated configuration properties, as exposed by
//! specs and features.

use vstd::prelude::*;

use crate::builder::{if_absent, BuildError, Missing};
use crate::key::ValidKey;
use crate::language::LanguageMap;

verus! {

/// The kind of value a property holds.
#[derive(Debug, Clone, Copy, PartialEq, Eq, Structural)]
pub enum DataType {
    String,
    Integer,
    Float,
    Playable,
}

/// A literal value, tagged with its kind (`{"String": "up"}`, `{"Integer": 4}`
/// in the compact form).
#[derive(Debug, Clone)]
pub enum Value {
    String(String),
    Integer(i64),
}

/// Whether two literals have the same tag and the same payload.
pub open spec fn same_value(a: Value, b: Value) -> bool {
    match (a, b) {
        (Value::String(x), Value::String(y)) => x@ == y@,
        (Value::Integer(x), Value::Integer(y)) => x == y,
        _ => false,
    }
}

impl PartialEq for Value {
    fn eq(&self, other: &Value) -> (r: bool)
        ensures
            r == same_value(*self, *other),
    {
        match (self, other) {
            (Value::String(x), Value::String(y)) => *x == *y,
            (Value::Integer(x), Value::Integer(y)) => *x == *y,
            _ => false,
        }
    }
}

impl vstd::std_specs::cmp::PartialEqSpecImpl for Value {
    open spec fn obeys_eq_spec() -> bool {
        true
    }

    open spec fn eq_spec(&self, other: &Value) -> bool {
        same_value(*self, *other)
    }
}

impl Eq for Value {
}

/// One configurable attribute that a spec or feature exposes.
#[derive(Debug, Clone, PartialEq)]
pub struct Property {
    pub key: ValidKey,
    pub data_type: DataType,
    pub titles: LanguageMap,
    pub descriptions: LanguageMap,
    pub optional: bool,
    pub enumerations: Vec<Value>,
}

/// Assembles a `Property`. `key` and `data_type` are required.
pub struct PropertyBuilder {
    pub key: Option<ValidKey>,
    pub data_type: Option<DataType>,
    pub titles: Option<LanguageMap>,
    pub descriptions: Option<LanguageMap>,
    pub optional: Option<bool>,
    pub enumerations: Option<Vec<Value>>,
}

impl PropertyBuilder {
    /// A builder with nothing set.
    pub fn new() -> (b: PropertyBuilder)
        ensures
            b.key is None,
            b.data_type is None,
            b.titles is None,
            b.descriptions is None,
            b.optional is None,
            b.enumerations is None,
    {
        PropertyBuilder {
            key: None,
            data_type: None,
            titles: None,
            descriptions: None,
            optional: None,
            enumerations: None,
        }
    }

    /// Sets `key`.
    pub fn key(self, key: ValidKey) -> (b: PropertyBuilder)
        ensures
            b == (PropertyBuilder { key: Some(key), ..self }),
    {
        PropertyBuilder { key: Some(key), ..self }
    }

    /// Sets `data_type`.
    pub fn data_type(self, data_type: DataType) -> (b: PropertyBuilder)
        ensures
            b == (PropertyBuilder { data_type: Some(data_type), ..self }),
    {
        PropertyBuilder { data_type: Some(data_type), ..self }
    }

    /// Sets `titles`.
    pub fn titles(self, titles: LanguageMap) -> (b: PropertyBuilder)
        ensures
            b == (PropertyBuilder { titles: Some(titles), ..self }),
    {
        PropertyBuilder { titles: Some(titles), ..self }
    }

    /// Sets `descriptions`.
    pub fn descriptions(self, descriptions: LanguageMap) -> (b: PropertyBuilder)
        ensures
            b == (PropertyBuilder { descriptions: Some(descriptions), ..self }),
    {
        PropertyBuilder { descriptions: Some(descriptions), ..self }
    }

    /// Sets `optional`.
    pub fn optional(self, optional: bool) -> (b: PropertyBuilder)
        ensures
            b == (PropertyBuilder { optional: Some(optional), ..self }),
    {
        PropertyBuilder { optional: Some(optional), ..self }
    }

    /// Sets `enumerations`.
    pub fn enumerations(self, enumerations: Vec<Value>) -> (b: PropertyBuilder)
        ensures
            b == (PropertyBuilder { enumerations: Some(enumerations), ..self }),
    {
        PropertyBuilder { enumerations: Some(enumerations), ..self }
    }

    /// The names of the required fields that are unset, in declaration order.
    pub open spec fn missing(&self) -> Seq<Seq<char>> {
        if_absent(self.key is None, "key"@)
            + if_absent(self.data_type is None, "data_type"@)
    }

    /// The `Property`, with defaults where optional fields were not
    /// set; an error naming every unset required field otherwise.
    pub fn build(self) -> (r: Result<Property, BuildError>)
        ensures
            r is Ok <==> self.missing().len() == 0,
            r matches Err(e) ==> e@ == self.missing(),
            r matches Ok(v) ==> {
                &&& Some(v.key) == self.key
                &&& Some(v.data_type) == self.data_type
                &&& self.titles matches Some(x) ==> v.titles == x
                &&& self.titles is None ==> v.titles@.len() == 0
                &&& self.descriptions matches Some(x) ==> v.descriptions == x
                &&& self.descriptions is None ==> v.descriptions@.len() == 0
                &&& self.optional matches Some(x) ==> v.optional == x
                &&& self.optional is None ==> !v.optional
                &&& self.enumerations matches Some(x) ==> v.enumerations == x
                &&& self.enumerations is None ==> v.enumerations@.len() == 0
            },
    {
        let mut missing = Missing::new();
        missing.note(self.key.is_none(), "key");
        missing.note(self.data_type.is_none(), "data_type");
        assert(missing@ =~= self.missing());
        match (self.key, self.data_type) {
            (Some(key), Some(data_type)) => Ok(
                Property {
                    key,
                    data_type,
                    titles: self.titles.unwrap_or(LanguageMap::new()),
                    descriptions: self.descriptions.unwrap_or(LanguageMap::new()),
                    optional: self.optional.unwrap_or(false),
                    enumerations: self.enumerations.unwrap_or(Vec::new()),
                },
            ),
            _ => Err(missing.into_error()),
        }
    }
}

/// Whether a property admits a literal: any literal when it lists no
/// enumerations, otherwise only one of those it lists.
pub open spec fn admits(enumerations: Seq<Value>, v: Value) -> bool {
    enumerations.len() == 0 || exists|i: int| 0 <= i < enumerations.len() && same_value(
        #[trigger] enumerations[i],
        v,
    )
}

impl Property {
    /// Whether the property admits `value`: it does when its enumerations
    /// are empty or one of them has the same tag and payload.
    pub fn admits(&self, value: &Value) -> (b: bool)
        ensures
            b == admits(self.enumerations@, *value),
    {
        let n = self.enumerations.len();
        if n == 0 {
            return true;
        }
        let mut i: usize = 0;
        while i < n
            invariant
                n == self.enumerations@.len(),
                i <= n,
                forall|k: int| 0 <= k < i ==> !same_value(#[trigger] self.enumerations@[k], *value),
            decreases n - i,
        {
            if self.enumerations[i].eq(value) {
                return true;
            }
            i = i + 1;
        }
        false
    }
}

impl Default for PropertyBuilder {
    fn default() -> (b: PropertyBuilder)
        ensures
            b.key is None,
            b.data_type is None,
            b.titles is None,
            b.descriptions is None,
            b.optional is None,
            b.enumerations is None,
    {
        PropertyBuilder::new()
    }
}

} // verus!
