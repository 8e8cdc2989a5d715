use vstd::prelude::*;

verus! {

/// A JSON document as the resolver reads it. Numbers keep their text.
#[derive(Debug)]
pub enum JsonValue {
    Null,
    Bool(bool),
    Number(String),
    Str(String),
    Array(Vec<JsonValue>),
    Object(Vec<(String, JsonValue)>),
}

/// The elements of `v` when it is an array.
pub open spec fn as_array_spec(v: JsonValue) -> Option<Seq<JsonValue>> {
    match v {
        JsonValue::Array(a) => Some(a@),
        _ => None,
    }
}

/// The text of `v` when it is a string.
pub open spec fn as_str_spec(v: JsonValue) -> Option<Seq<char>> {
    match v {
        JsonValue::Str(s) => Some(s@),
        _ => None,
    }
}

/// The value of the first entry named `key`, from position `i` on.
pub open spec fn entries_lookup(entries: Seq<(String, JsonValue)>, key: Seq<char>, i: int) -> Option<JsonValue>
    decreases entries.len() - i,
{
    if i < 0 || i >= entries.len() {
        None
    } else if entries[i].0@ == key {
        Some(entries[i].1)
    } else {
        entries_lookup(entries, key, i + 1)
    }
}

/// The member `key` of `v`, when `v` is an object that has one.
pub open spec fn lookup(v: JsonValue, key: Seq<char>) -> Option<JsonValue> {
    match v {
        JsonValue::Object(entries) => entries_lookup(entries@, key, 0),
        _ => None,
    }
}

/// The text of the member `key` of `v`, when that member is a string.
pub open spec fn str_field(v: JsonValue, key: Seq<char>) -> Option<Seq<char>> {
    match lookup(v, key) {
        Some(f) => as_str_spec(f),
        None => None,
    }
}

/// The elements of the member `key` of `v`, when that member is an array.
pub open spec fn array_field(v: JsonValue, key: Seq<char>) -> Option<Seq<JsonValue>> {
    match lookup(v, key) {
        Some(f) => as_array_spec(f),
        None => None,
    }
}

impl JsonValue {
    pub fn as_array(&self) -> (r: Option<&Vec<JsonValue>>)
        ensures
            match r {
                Some(a) => as_array_spec(*self) == Some(a@),
                None => as_array_spec(*self) is None,
            },
    {
        match self {
            JsonValue::Array(a) => Some(a),
            _ => None,
        }
    }

    pub fn as_str(&self) -> (r: Option<&String>)
        ensures
            match r {
                Some(s) => as_str_spec(*self) == Some(s@),
                None => as_str_spec(*self) is None,
            },
    {
        match self {
            JsonValue::Str(s) => Some(s),
            _ => None,
        }
    }

    /// The member `key`, when this is an object that has one.
    pub fn get(&self, key: &str) -> (r: Option<&JsonValue>)
        ensures
            match r {
                Some(f) => lookup(*self, key@) == Some(*f),
                None => lookup(*self, key@) is None,
            },
    {
        match self {
            JsonValue::Object(entries) => {
                let key_s = String::from_str(key);
                let mut i: usize = 0;
                while i < entries.len()
                    invariant
                        i <= entries@.len(),
                        key_s@ == key@,
                        lookup(*self, key@) == entries_lookup(entries@, key@, i as int),
                    decreases entries@.len() - i,
                {
                    let entry = &entries[i];
                    if entry.0.eq(&key_s) {
                        assert(entries_lookup(entries@, key@, i as int) == Some(entry.1));
                        return Some(&entry.1);
                    }
                    i = i + 1;
                }
                None
            },
            _ => None,
        }
    }

    /// The text of the member `key`, when it is a string.
    pub fn str_field(&self, key: &str) -> (r: Option<&String>)
        ensures
            match r {
                Some(s) => str_field(*self, key@) == Some(s@),
                None => str_field(*self, key@) is None,
            },
    {
        match self.get(key) {
            Some(f) => f.as_str(),
            None => None,
        }
    }

    /// The elements of the member `key`, when it is an array.
    pub fn array_field(&self, key: &str) -> (r: Option<&Vec<JsonValue>>)
        ensures
            match r {
                Some(a) => array_field(*self, key@) == Some(a@),
                None => array_field(*self, key@) is None,
            },
    {
        match self.get(key) {
            Some(f) => f.as_array(),
            None => None,
        }
    }
}

} // verus!
