//! A value kept together with the data it was read from.

use vstd::prelude::*;
use vstd::std_specs::convert::FromSpecImpl;

verus! {

/// A container type that allows for a value to be bundled with its underlying data.
///
/// Primarily, this is used to do zero-copy deserialisation
/// while still allowing for owned-semantics.
#[derive(Debug)]
pub struct Container<D, V> {
    _data: D,
    value: V,
}

impl<D, V> Container<D, V> {
    /// The data that the value was read from.
    pub closed spec fn data(&self) -> D {
        self._data
    }

    /// The value.
    pub closed spec fn held(&self) -> V {
        self.value
    }

    pub fn new(data: D, value: V) -> (container: Self)
        ensures
            container.data() == data,
            container.held() == value,
    {
        Container { _data: data, value }
    }

    pub fn get(&self) -> (value: &V)
        ensures
            *value == self.held(),
    {
        &self.value
    }

    /// Puts another value in the place of the one held, and hands that one out.
    pub fn replace(&mut self, value: V) -> (before: V)
        ensures
            before == old(self).held(),
            final(self).held() == value,
            final(self).data() == old(self).data(),
    {
        let mut value = value;
        std::mem::swap(&mut self.value, &mut value);
        value
    }

    pub fn into_value(self) -> (value: V)
        ensures
            value == self.held(),
    {
        self.value
    }
}

/// What the conversion gives is stated by its own `ensures`, over what the container
/// holds.
impl<D, V> FromSpecImpl<(D, V)> for Container<D, V> {
    open spec fn obeys_from_spec() -> bool {
        false
    }

    open spec fn from_spec(pair: (D, V)) -> Self {
        arbitrary()
    }
}

impl<D, V> From<(D, V)> for Container<D, V> {
    fn from(pair: (D, V)) -> (container: Self)
        ensures
            container.data() == pair.0,
            container.held() == pair.1,
    {
        Container::new(pair.0, pair.1)
    }
}

} // verus!
