//! Keys and the environment they resolve against.
//!
//! A widget attribute is either a concrete value or a [`Key`] looked up in
//! the [`Env`] at use time. Lookups are total: a key with no binding
//! resolves to the attribute's zero value.

use vstd::prelude::*;
use crate::geometry::RoundedRectRadii;
use crate::paint::Color;

verus! {

/// A handle naming an environment entry.
#[derive(Clone, Copy, Debug, PartialEq, Eq, Structural)]
pub struct Key {
    pub id: u64,
}

impl Key {
    pub fn new(id: u64) -> (r: Key)
        ensures
            r == (Key { id }),
    {
        Key { id }
    }
}

/// Either a concrete value or a key resolved against the environment.
#[derive(Clone, Copy, Debug)]
pub enum KeyOrValue<T> {
    Concrete(T),
    Key(Key),
}

/// The first binding for `k`, scanning from the front; `None` if the key
/// is unbound.
pub open spec fn assoc_get<T>(entries: Seq<(u64, T)>, k: u64) -> Option<T>
    decreases entries.len(),
{
    if entries.len() == 0 {
        None
    } else if entries[0].0 == k {
        Some(entries[0].1)
    } else {
        assoc_get(entries.drop_first(), k)
    }
}

fn assoc_find<T: Copy>(entries: &Vec<(u64, T)>, k: u64) -> (r: Option<T>)
    ensures
        r == assoc_get(entries@, k),
{
    let mut i: usize = 0;
    proof {
        assert(entries@.skip(0) =~= entries@);
    }
    while i < entries.len()
        invariant
            i <= entries@.len(),
            assoc_get(entries@, k) == assoc_get(entries@.skip(i as int), k),
        decreases entries@.len() - i,
    {
        let entry = entries[i];
        if entry.0 == k {
            proof {
                assert(entries@.skip(i as int)[0] == entries@[i as int]);
            }
            return Some(entry.1);
        }
        proof {
            assert(entries@.skip(i as int).drop_first() =~= entries@.skip(i as int + 1));
        }
        i = i + 1;
    }
    proof {
        assert(entries@.skip(i as int).len() == 0);
    }
    None
}

/// Bindings a widget tree is resolved against: colors, lengths, and corner
/// radii, each keyed by a [`Key`]. A later binding for the same key does
/// not shadow an earlier one.
#[derive(Clone, Debug)]
pub struct Env {
    pub colors: Vec<(u64, Color)>,
    pub dims: Vec<(u64, u64)>,
    pub radii: Vec<(u64, RoundedRectRadii)>,
}

impl Env {
    pub fn empty() -> (r: Env)
        ensures
            r.colors@ == Seq::<(u64, Color)>::empty(),
            r.dims@ == Seq::<(u64, u64)>::empty(),
            r.radii@ == Seq::<(u64, RoundedRectRadii)>::empty(),
    {
        Env { colors: Vec::new(), dims: Vec::new(), radii: Vec::new() }
    }

    pub fn add_color(&mut self, k: Key, v: Color)
        ensures
            final(self).colors@ == old(self).colors@.push((k.id, v)),
            final(self).dims@ == old(self).dims@,
            final(self).radii@ == old(self).radii@,
    {
        self.colors.push((k.id, v));
    }

    pub fn add_dim(&mut self, k: Key, v: u64)
        ensures
            final(self).dims@ == old(self).dims@.push((k.id, v)),
            final(self).colors@ == old(self).colors@,
            final(self).radii@ == old(self).radii@,
    {
        self.dims.push((k.id, v));
    }

    pub fn add_radii(&mut self, k: Key, v: RoundedRectRadii)
        ensures
            final(self).radii@ == old(self).radii@.push((k.id, v)),
            final(self).colors@ == old(self).colors@,
            final(self).dims@ == old(self).dims@,
    {
        self.radii.push((k.id, v));
    }

    /// The color bound to `k`, or transparent if unbound.
    pub open spec fn color_of(self, k: Key) -> Color {
        match assoc_get(self.colors@, k.id) {
            Some(c) => c,
            None => Color { r: 0, g: 0, b: 0, a: 0 },
        }
    }

    /// The length bound to `k`, or zero if unbound.
    pub open spec fn dim_of(self, k: Key) -> u64 {
        match assoc_get(self.dims@, k.id) {
            Some(v) => v,
            None => 0,
        }
    }

    /// The radii bound to `k`, or square corners if unbound.
    pub open spec fn radii_of(self, k: Key) -> RoundedRectRadii {
        match assoc_get(self.radii@, k.id) {
            Some(v) => v,
            None => RoundedRectRadii::single_spec(0),
        }
    }

    pub fn get_color(&self, k: Key) -> (r: Color)
        ensures
            r == self.color_of(k),
    {
        match assoc_find(&self.colors, k.id) {
            Some(c) => c,
            None => Color { r: 0, g: 0, b: 0, a: 0 },
        }
    }

    pub fn get_dim(&self, k: Key) -> (r: u64)
        ensures
            r == self.dim_of(k),
    {
        match assoc_find(&self.dims, k.id) {
            Some(v) => v,
            None => 0,
        }
    }

    pub fn get_radii(&self, k: Key) -> (r: RoundedRectRadii)
        ensures
            r == self.radii_of(k),
    {
        match assoc_find(&self.radii, k.id) {
            Some(v) => v,
            None => RoundedRectRadii::from_single_radius(0),
        }
    }
}

impl KeyOrValue<Color> {
    pub open spec fn resolve_spec(self, env: Env) -> Color {
        match self {
            KeyOrValue::Concrete(v) => v,
            KeyOrValue::Key(k) => env.color_of(k),
        }
    }

    pub fn resolve(&self, env: &Env) -> (r: Color)
        ensures
            r == self.resolve_spec(*env),
    {
        match self {
            KeyOrValue::Concrete(v) => *v,
            KeyOrValue::Key(k) => env.get_color(*k),
        }
    }
}

impl KeyOrValue<u64> {
    pub open spec fn resolve_spec(self, env: Env) -> u64 {
        match self {
            KeyOrValue::Concrete(v) => v,
            KeyOrValue::Key(k) => env.dim_of(k),
        }
    }

    pub fn resolve(&self, env: &Env) -> (r: u64)
        ensures
            r == self.resolve_spec(*env),
    {
        match self {
            KeyOrValue::Concrete(v) => *v,
            KeyOrValue::Key(k) => env.get_dim(*k),
        }
    }
}

impl KeyOrValue<RoundedRectRadii> {
    pub open spec fn resolve_spec(self, env: Env) -> RoundedRectRadii {
        match self {
            KeyOrValue::Concrete(v) => v,
            KeyOrValue::Key(k) => env.radii_of(k),
        }
    }

    pub fn resolve(&self, env: &Env) -> (r: RoundedRectRadii)
        ensures
            r == self.resolve_spec(*env),
    {
        match self {
            KeyOrValue::Concrete(v) => *v,
            KeyOrValue::Key(k) => env.get_radii(*k),
        }
    }
}

} // verus!
