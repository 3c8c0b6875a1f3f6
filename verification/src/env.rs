//! The environment: scoped configuration values that travel down the widget
//! tree next to the application data.

use vstd::prelude::*;

verus! {

/// A colour as packed red, green, blue and alpha bytes.
#[derive(Clone, Copy, Debug, PartialEq, Eq, Structural)]
pub struct Color {
    pub rgba: u32,
}

impl Color {
    /// The colour with the given bytes.
    pub fn new(rgba: u32) -> (c: Color)
        ensures
            c == (Color { rgba }),
    {
        Color { rgba }
    }
}

/// A value that the environment can hold.
#[derive(Clone, Copy, Debug, PartialEq, Eq, Structural)]
pub enum Value {
    Bool(bool),
    Unsigned(u64),
    Color(Color),
}

/// An immutable snapshot of configuration values by key.
///
/// An environment is a chain of bindings. A subtree that overrides a value
/// works on a longer chain of its own; the shorter chain that its parent
/// holds is untouched, so an override never reaches a sibling. Where a key is
/// bound more than once the innermost binding is the one that is seen.
#[derive(Debug, PartialEq, Eq)]
pub enum Env {
    Root,
    Scope { key: u32, value: Value, outer: Box<Env> },
}

impl View for Env {
    type V = Map<u32, Value>;

    /// The values that are visible, by key.
    open spec fn view(&self) -> Map<u32, Value> {
        self.bindings()
    }
}

impl Env {
    /// The values that are visible, by key: what the outer scopes show,
    /// overridden by the innermost binding.
    pub open spec fn bindings(&self) -> Map<u32, Value>
        decreases self,
    {
        match self {
            Env::Root => Map::empty(),
            Env::Scope { key, value, outer } => outer.bindings().insert(*key, *value),
        }
    }

    /// What a lookup of `key` finds.
    pub open spec fn spec_get(&self, key: u32) -> Option<Value> {
        if self@.contains_key(key) {
            Some(self@[key])
        } else {
            None
        }
    }

    /// `self` with `key` bound to `value` in a new innermost scope.
    pub open spec fn spec_adding(self, key: u32, value: Value) -> Env {
        Env::Scope { key, value, outer: Box::new(self) }
    }

    /// The environment without any binding.
    pub fn new() -> (env: Env)
        ensures
            env == Env::Root,
            env@ == Map::<u32, Value>::empty(),
    {
        Env::Root
    }

    /// Looks `key` up.
    pub fn get(&self, key: u32) -> (found: Option<Value>)
        ensures
            found == self.spec_get(key),
        decreases self,
    {
        match self {
            Env::Root => None,
            Env::Scope { key: k, value, outer } => {
                if *k == key {
                    Some(*value)
                } else {
                    outer.get(key)
                }
            },
        }
    }

    /// Looks up the colour bound to `key`; `fallback` where the key is not
    /// bound or is bound to something that is no colour.
    pub fn get_color(&self, key: u32, fallback: Color) -> (c: Color)
        ensures
            c == self.spec_get_color(key, fallback),
    {
        match self.get(key) {
            Some(Value::Color(c)) => c,
            _ => fallback,
        }
    }

    /// The colour that a lookup of `key` finds, or `fallback`.
    pub open spec fn spec_get_color(&self, key: u32, fallback: Color) -> Color {
        match self.spec_get(key) {
            Some(Value::Color(c)) => c,
            _ => fallback,
        }
    }

    /// Binds `key` to `value` in a new innermost scope and returns the longer
    /// chain.
    pub fn adding(self, key: u32, value: Value) -> (env: Env)
        ensures
            env == self.spec_adding(key, value),
            env@ == self@.insert(key, value),
    {
        Env::Scope { key, value, outer: Box::new(self) }
    }

    /// Binds `key` to `value` in place.
    pub fn set(&mut self, key: u32, value: Value)
        ensures
            *final(self) == old(self).spec_adding(key, value),
            final(self)@ == old(self)@.insert(key, value),
    {
        let mut outer = Env::Root;
        core::mem::swap(self, &mut outer);
        *self = Env::Scope { key, value, outer: Box::new(outer) };
    }

    /// Whether two environments are the same chain of bindings. Equal chains
    /// show the same values; chains that differ may still do so.
    pub fn same(&self, other: &Env) -> (b: bool)
        ensures
            b == (*self == *other),
        decreases self,
    {
        match self {
            Env::Root => {
                match other {
                    Env::Root => true,
                    Env::Scope { .. } => false,
                }
            },
            Env::Scope { key, value, outer } => {
                match other {
                    Env::Root => false,
                    Env::Scope { key: k2, value: v2, outer: o2 } => {
                        *key == *k2 && *value == *v2 && outer.same(o2)
                    },
                }
            },
        }
    }
}

impl Clone for Env {
    /// An equal chain of bindings.
    fn clone(&self) -> (env: Env)
        ensures
            env == *self,
        decreases self,
    {
        match self {
            Env::Root => Env::Root,
            Env::Scope { key, value, outer } => {
                let rest = (&**outer).clone();
                Env::Scope { key: *key, value: *value, outer: Box::new(rest) }
            },
        }
    }
}

/// A binding is visible in the scope that made it, and every other key shows
/// what the outer environment shows.
pub proof fn lemma_scope_lookup(env: Env, key: u32, value: Value, other: u32)
    ensures
        env.spec_adding(key, value).spec_get(key) == Some(value),
        other != key ==> env.spec_adding(key, value).spec_get(other) == env.spec_get(other),
{
}

} // verus!
