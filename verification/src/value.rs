//! The generic document tree the scene is parsed from.
//!
//! A source document arrives as an already-parsed tree of scalars, sequences
//! and mappings; the core only reads from it.  The unverified reader that
//! builds the tree hands numeric scalars over in every representation the
//! core's consumers use (see [`Num`]), so that all verified code works on
//! plain integers and opaque bit patterns.

use vstd::prelude::*;

verus! {

/// A numeric scalar of a document.
///
/// The scalar is carried in every representation a consumer reads: the
/// integer itself when the document wrote an integer, and the IEEE-754
/// bit patterns of the number in both widths.  Storing bit patterns keeps
/// the core in integer arithmetic; the unverified reader that builds the
/// tree derives all three fields from the one number it saw.
#[derive(Debug, Clone, Copy, PartialEq)]
pub struct Num {
    /// `Some` exactly when the document wrote the scalar as an integer.
    pub whole: Option<i64>,
    /// IEEE-754 binary64 bits of the scalar.
    pub wide: u64,
    /// IEEE-754 binary32 bits of the scalar.
    pub narrow: u32,
}

/// One node of a parsed source document.
///
/// A mapping is kept as an ordered list of key/value pairs; keys may be
/// arbitrary nodes, and a lookup by name finds the first pair whose key is
/// the text of that name.  Anything a document can hold beyond scalars,
/// sequences and mappings is represented as `Null` and matches no accessor.
#[derive(Debug, PartialEq)]
pub enum Value {
    Num(Num),
    Text(String),
    Bool(bool),
    List(Vec<Value>),
    Dict(Vec<(Value, Value)>),
    Null,
}

/// Does mapping key `k` spell the name `key`?
pub open spec fn key_matches(k: Value, key: Seq<char>) -> bool {
    k matches Value::Text(s) && s@ == key
}

/// The first value among `es` whose key is the text `key`.
pub open spec fn lookup_entries(es: Seq<(Value, Value)>, key: Seq<char>) -> Option<Value>
    decreases es.len(),
{
    if es.len() <= 0 {
        None
    } else if key_matches(es[0].0, key) {
        Some(es[0].1)
    } else {
        lookup_entries(es.skip(1), key)
    }
}

/// The value stored under `key` when `v` is a mapping that has it.
pub open spec fn spec_entry(v: Value, key: Seq<char>) -> Option<Value> {
    match v {
        Value::Dict(es) => lookup_entries(es@, key),
        _ => None,
    }
}

/// The numeric scalar stored under `key`.
pub open spec fn spec_num(v: Value, key: Seq<char>) -> Option<Num> {
    match spec_entry(v, key) {
        Some(Value::Num(n)) => Some(n),
        _ => None,
    }
}

/// The integer stored under `key`: present only when the document wrote
/// the field as an integer.
pub open spec fn spec_whole(v: Value, key: Seq<char>) -> Option<i64> {
    match spec_num(v, key) {
        Some(n) => n.whole,
        None => None,
    }
}

/// The integer stored under `key`, truncated to 32 bits.
pub open spec fn spec_whole32(v: Value, key: Seq<char>) -> Option<i32> {
    match spec_whole(v, key) {
        Some(x) => Some(x as i32),
        None => None,
    }
}

/// The binary64 bits of the numeric field stored under `key`; integers and
/// floating-point scalars both qualify.
pub open spec fn spec_wide(v: Value, key: Seq<char>) -> Option<u64> {
    match spec_num(v, key) {
        Some(n) => Some(n.wide),
        None => None,
    }
}

/// The binary32 bits of the numeric field stored under `key`.
pub open spec fn spec_narrow(v: Value, key: Seq<char>) -> Option<u32> {
    match spec_num(v, key) {
        Some(n) => Some(n.narrow),
        None => None,
    }
}

/// The boolean stored under `key`.
pub open spec fn spec_bool(v: Value, key: Seq<char>) -> Option<bool> {
    match spec_entry(v, key) {
        Some(Value::Bool(b)) => Some(b),
        _ => None,
    }
}

/// The text stored under `key`.
pub open spec fn spec_text(v: Value, key: Seq<char>) -> Option<Seq<char>> {
    match spec_entry(v, key) {
        Some(Value::Text(s)) => Some(s@),
        _ => None,
    }
}

/// The sequence stored under `key`.
pub open spec fn spec_list(v: Value, key: Seq<char>) -> Option<Seq<Value>> {
    match spec_entry(v, key) {
        Some(Value::List(xs)) => Some(xs@),
        _ => None,
    }
}

/// The mapping stored under `key`, as a whole node.
pub open spec fn spec_dict(v: Value, key: Seq<char>) -> Option<Value> {
    match spec_entry(v, key) {
        Some(d) => if d is Dict {
            Some(d)
        } else {
            None
        },
        _ => None,
    }
}

/// The option's value, or `d` when it is absent.
pub open spec fn opt_or<T>(o: Option<T>, d: T) -> T {
    match o {
        Some(x) => x,
        None => d,
    }
}

/// Do the two names spell the same characters?
pub fn str_eq(a: &str, b: &str) -> (r: bool)
    ensures
        r == (a@ == b@),
{
    let sa: String = a.to_owned();
    let sb: String = b.to_owned();
    sa == sb
}

impl Value {
    /// The value stored under `key` when `self` is a mapping that has it.
    pub fn entry(&self, key: &str) -> (r: Option<&Value>)
        ensures
            match r {
                Some(v) => spec_entry(*self, key@) == Some(*v),
                None => spec_entry(*self, key@) is None,
            },
    {
        match self {
            Value::Dict(es) => {
                let n = es.len();
                let mut i: usize = 0;
                proof {
                    assert(es@.skip(0) =~= es@);
                }
                while i < n
                    invariant
                        n == es@.len(),
                        i <= n,
                        spec_entry(*self, key@) == lookup_entries(es@, key@),
                        lookup_entries(es@, key@) == lookup_entries(es@.skip(i as int), key@),
                    decreases n - i,
                {
                    let matched = match &es[i].0 {
                        Value::Text(s) => str_eq(s.as_str(), key),
                        _ => false,
                    };
                    proof {
                        assert(es@.skip(i as int)[0] == es@[i as int]);
                        assert(es@.skip(i as int).skip(1) =~= es@.skip(i as int + 1));
                    }
                    if matched {
                        proof {
                            assert(key_matches(es@[i as int].0, key@));
                            assert(lookup_entries(es@.skip(i as int), key@) == Some(
                                es@[i as int].1,
                            ));
                        }
                        return Some(&es[i].1);
                    }
                    i = i + 1;
                }
                proof {
                    assert(es@.skip(n as int) =~= Seq::<(Value, Value)>::empty());
                }
                None
            },
            _ => None,
        }
    }

    /// The integer stored under `key`, when the document wrote an integer.
    pub fn whole_val(&self, key: &str) -> (r: Option<i64>)
        ensures
            r == spec_whole(*self, key@),
    {
        match self.entry(key) {
            Some(Value::Num(n)) => n.whole,
            _ => None,
        }
    }

    /// The integer stored under `key`, truncated to 32 bits.
    pub fn whole32_val(&self, key: &str) -> (r: Option<i32>)
        ensures
            r == spec_whole32(*self, key@),
    {
        match self.whole_val(key) {
            Some(x) => Some(#[verifier::truncate] (x as i32)),
            None => None,
        }
    }

    /// The binary64 bits of the numeric field stored under `key`.
    pub fn wide_val(&self, key: &str) -> (r: Option<u64>)
        ensures
            r == spec_wide(*self, key@),
    {
        match self.entry(key) {
            Some(Value::Num(n)) => Some(n.wide),
            _ => None,
        }
    }

    /// The binary32 bits of the numeric field stored under `key`.
    pub fn narrow_val(&self, key: &str) -> (r: Option<u32>)
        ensures
            r == spec_narrow(*self, key@),
    {
        match self.entry(key) {
            Some(Value::Num(n)) => Some(n.narrow),
            _ => None,
        }
    }

    /// The boolean stored under `key`.
    pub fn bool_val(&self, key: &str) -> (r: Option<bool>)
        ensures
            r == spec_bool(*self, key@),
    {
        match self.entry(key) {
            Some(Value::Bool(b)) => Some(*b),
            _ => None,
        }
    }

    /// The text stored under `key`, borrowed.
    pub fn str_val(&self, key: &str) -> (r: Option<&String>)
        ensures
            match r {
                Some(s) => spec_text(*self, key@) == Some(s@),
                None => spec_text(*self, key@) is None,
            },
    {
        match self.entry(key) {
            Some(Value::Text(s)) => Some(s),
            _ => None,
        }
    }

    /// The text stored under `key`, as an owned string.
    pub fn string_val(&self, key: &str) -> (r: Option<String>)
        ensures
            match r {
                Some(s) => spec_text(*self, key@) == Some(s@),
                None => spec_text(*self, key@) is None,
            },
    {
        match self.entry(key) {
            Some(Value::Text(s)) => Some(s.clone()),
            _ => None,
        }
    }

    /// The sequence stored under `key`.
    pub fn array_val(&self, key: &str) -> (r: Option<&Vec<Value>>)
        ensures
            match r {
                Some(xs) => spec_list(*self, key@) == Some(xs@),
                None => spec_list(*self, key@) is None,
            },
    {
        match self.entry(key) {
            Some(Value::List(xs)) => Some(xs),
            _ => None,
        }
    }

    /// The mapping stored under `key`, as a whole node.
    pub fn dict_val(&self, key: &str) -> (r: Option<&Value>)
        ensures
            match r {
                Some(d) => spec_dict(*self, key@) == Some(*d),
                None => spec_dict(*self, key@) is None,
            },
    {
        match self.entry(key) {
            Some(d) => {
                match d {
                    Value::Dict(_) => Some(d),
                    _ => None,
                }
            },
            None => None,
        }
    }
}

} // verus!
