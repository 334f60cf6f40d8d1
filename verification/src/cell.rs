//! One-slot persistent cells: a named container holding at most one value,
//! used for small auxiliary state such as a peer process's address.

use vstd::prelude::*;

use crate::api_error::{ApiError, ApiErrorKind, CanisterResult};

verus! {

/// A named one-slot store.
pub trait CellStorage<V: Clone>: Sized {
    /// The held value, if one was ever set.
    spec fn cell_value(&self) -> Option<V>;

    /// The cell's name.
    spec fn cell_name(&self) -> Seq<char>;

    /// The cell's name.
    fn name(&self) -> (r: String)
        ensures
            r@ == self.cell_name(),
    ;

    /// The held value, or `NotFound` when the cell was never set.
    fn get(&self) -> (r: CanisterResult<V>)
        ensures
            r is Ok <==> self.cell_value() is Some,
            match r {
                Ok(v) => self.cell_value() matches Some(w) && cloned(w, v),
                Err(e) => {
                    &&& e.kind == ApiErrorKind::NotFound
                    &&& e.method_name matches Some(m) && m@ == "get"@
                    &&& e.info matches Some(i) && i@ == self.cell_name()
                    &&& e.message is None
                },
            },
    ;

    /// Store a value, replacing whatever the cell held.
    fn set(&mut self, value: V)
        ensures
            final(self).cell_value() == Some(value),
            final(self).cell_name() == old(self).cell_name(),
    ;
}

/// The one cell implementation.
pub struct GenericCellStorage<V: Clone> {
    name: String,
    value: Option<V>,
}

impl<V: Clone> GenericCellStorage<V> {
    /// A cell with the given name and initial content.
    pub fn new(name: &str, value: Option<V>) -> (c: Self)
        ensures
            c.cell_value() == value,
            c.cell_name() == name@,
    {
        GenericCellStorage { name: String::from_str(name), value }
    }
}

impl<V: Clone> CellStorage<V> for GenericCellStorage<V> {
    closed spec fn cell_value(&self) -> Option<V> {
        self.value
    }

    closed spec fn cell_name(&self) -> Seq<char> {
        self.name@
    }

    fn name(&self) -> (r: String) {
        self.name.clone()
    }

    fn get(&self) -> (r: CanisterResult<V>) {
        match &self.value {
            Some(v) => Ok(v.clone()),
            None => Err(
                ApiError::not_found().add_method_name("get").add_info(self.name.as_str()),
            ),
        }
    }

    fn set(&mut self, value: V) {
        self.value = Some(value);
    }
}

} // verus!
