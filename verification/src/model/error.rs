//! Failure kinds of the model layer.

use vstd::prelude::*;

verus! {

/// What the model layer can report to its callers: either a lookup for
/// an id that no row of the entity has, or a failure of the underlying
/// store itself.
#[derive(Debug)]
pub enum Error {
    EntityNotFound { entity: &'static str, id: i64 },
    Store { cause: String },
}

impl Error {
    /// The variant's name, as it appears in log lines.
    pub fn as_str(&self) -> (r: &'static str)
        ensures
            match self {
                Error::EntityNotFound { .. } => r@ == "EntityNotFound"@,
                Error::Store { .. } => r@ == "Store"@,
            },
    {
        match self {
            Error::EntityNotFound { .. } => "EntityNotFound",
            Error::Store { .. } => "Store",
        }
    }
}

impl Clone for Error {
    fn clone(&self) -> (r: Self)
        ensures
            r == *self,
    {
        match self {
            Error::EntityNotFound { entity, id } => Error::EntityNotFound { entity, id: *id },
            Error::Store { cause } => Error::Store { cause: cause.clone() },
        }
    }
}

} // verus!
