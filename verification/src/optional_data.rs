//! Three-state optional values.
//!
//! Aviation reports distinguish a field that was reported but illegible (a
//! run of `/` in place of digits) from a field that is absent altogether.
//! `OptionalData` covers the first two states; absence is expressed by
//! wrapping in `Option` where a whole group may be missing.

use vstd::prelude::*;

verus! {

/// A reported value: either readable data or an explicit "undefined" mark.
#[derive(Debug, Clone, Copy, PartialEq, Eq, Structural)]
pub enum OptionalData<T> {
    Data(T),
    Undefined,
}

impl<T> OptionalData<T> {
    /// Whether the value is readable data.
    pub open spec fn spec_is_data(self) -> bool {
        matches!(self, OptionalData::Data(_))
    }

    /// The readable value; meaningful only when `spec_is_data` holds.
    pub open spec fn spec_value(self) -> T
        recommends
            self.spec_is_data(),
    {
        self->Data_0
    }

    /// Converts to a plain `Option`, losing the undefined/absent distinction.
    pub fn to_option(self) -> (r: Option<T>)
        ensures
            r == if self.spec_is_data() {
                Some(self.spec_value())
            } else {
                Option::<T>::None
            },
    {
        match self {
            OptionalData::Data(v) => Some(v),
            OptionalData::Undefined => None,
        }
    }
}

} // verus!
