//! The reactive property cell.
//!
//! A cell is a named, identity-bearing container for one property value.  It
//! caches the last value, and it propagates values to its dependents: `set`
//! writes the cache and propagates, `set_no_propagate` writes the cache only,
//! and `tick` re-evaluates the cell by propagating the cached value again.
//! The values handed to dependents are modelled as the `propagated` log, in
//! the order they were sent; a concrete stream implementation drains it.

use vstd::prelude::*;

use crate::json;

verus! {

/// A reactive property cell: a value with a name, a unique identity, and a
/// log of the values it has propagated to its dependents.
pub struct ReactivePropertyInstance {
    /// The unique identity of the cell.
    pub id: u128,
    /// The name of the property the cell holds.
    pub name: String,
    /// The cached value: the last value written or propagated into the cell.
    pub value: serde_json::Value,
    /// The values this cell has sent downstream, oldest first.
    pub propagated: Vec<serde_json::Value>,
}

impl ReactivePropertyInstance {
    /// Builds a cell around a value.  Nothing has been propagated yet.
    pub fn new(id: u128, name: String, value: serde_json::Value) -> (r: ReactivePropertyInstance)
        ensures
            r.id == id,
            r.name == name,
            r.value == value,
            r.propagated@ == Seq::<serde_json::Value>::empty(),
    {
        ReactivePropertyInstance { id, name, value, propagated: Vec::new() }
    }

    /// Reads the cached value.
    pub fn get(&self) -> (r: serde_json::Value)
        ensures
            r == self.value,
    {
        self.value.clone()
    }

    /// Writes the cached value and propagates it to the dependents.
    pub fn set(&mut self, value: serde_json::Value)
        ensures
            final(self).value == value,
            final(self).propagated@ == old(self).propagated@.push(value),
            final(self).id == old(self).id,
            final(self).name@ == old(self).name@,
    {
        let propagated_value = value.clone();
        self.value = value;
        self.propagated.push(propagated_value);
    }

    /// Writes the cached value without propagating it: no dependent sees the
    /// write.
    pub fn set_no_propagate(&mut self, value: serde_json::Value)
        ensures
            final(self).value == value,
            final(self).propagated@ == old(self).propagated@,
            final(self).id == old(self).id,
            final(self).name@ == old(self).name@,
    {
        self.value = value;
    }

    /// Re-evaluates the cell: propagates the cached value again.  The cached
    /// value itself does not change.
    pub fn tick(&mut self)
        ensures
            final(self).value == old(self).value,
            final(self).propagated@ == old(self).propagated@.push(old(self).value),
            final(self).id == old(self).id,
            final(self).name@ == old(self).name@,
    {
        let current = self.value.clone();
        self.propagated.push(current);
    }

    /// The cached value coerced to a boolean, if it is one; the coercion is
    /// the value's own.
    pub fn as_bool(&self) -> (r: Option<bool>)
        ensures
            r == json::value_as_bool(self.value),
    {
        self.value.as_bool()
    }

    /// The cached value coerced to an unsigned integer, if it is one; the
    /// coercion is the value's own.
    pub fn as_u64(&self) -> (r: Option<u64>)
        ensures
            r == json::value_as_u64(self.value),
    {
        self.value.as_u64()
    }

    /// The cached value coerced to a signed integer, if it is one; the
    /// coercion is the value's own.
    pub fn as_i64(&self) -> (r: Option<i64>)
        ensures
            r == json::value_as_i64(self.value),
    {
        self.value.as_i64()
    }

    /// The cached value's string content, if it is a string; the coercion is
    /// the value's own.
    pub fn as_string(&self) -> (r: Option<String>)
        ensures
            match r {
                Some(s) => json::value_as_str(self.value) == Some(s@),
                None => json::value_as_str(self.value) is None,
            },
    {
        match self.value.as_str() {
            Some(s) => Some(s.to_string()),
            None => None,
        }
    }

    /// The cached value's elements, if it is an array; the coercion is the
    /// value's own.
    pub fn as_array(&self) -> (r: Option<Vec<serde_json::Value>>)
        ensures
            match r {
                Some(a) => json::value_as_array(self.value) == Some(a@),
                None => json::value_as_array(self.value) is None,
            },
    {
        match self.value.as_array() {
            Some(a) => Some(clone_values(a)),
            None => None,
        }
    }

    /// The cached value's members, if it is an object; the coercion is the
    /// value's own.
    pub fn as_object(&self) -> (r: Option<serde_json::Map<String, serde_json::Value>>)
        ensures
            match r {
                Some(m) => json::value_as_object(self.value) == Some(m),
                None => json::value_as_object(self.value) is None,
            },
    {
        match self.value.as_object() {
            Some(m) => Some(m.clone()),
            None => None,
        }
    }
}

/// Clones a vector of values element by element.
pub fn clone_values(values: &Vec<serde_json::Value>) -> (r: Vec<serde_json::Value>)
    ensures
        r@ == values@,
{
    let mut out: Vec<serde_json::Value> = Vec::new();
    let mut i: usize = 0;
    while i < values.len()
        invariant
            i <= values@.len(),
            out@ == values@.subrange(0, i as int),
        decreases values@.len() - i,
    {
        out.push(values[i].clone());
        i += 1;
    }
    proof {
        assert(out@ =~= values@);
    }
    out
}

} // verus!
