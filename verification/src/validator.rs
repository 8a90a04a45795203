//! Wrappers marking a request value as validated. The API layer's
//! extractors produce them only after the value's own validation passed.

use vstd::prelude::*;

verus! {

/// A query string whose validation passed.
pub struct ValidatedQuery<Q>(pub Q);

/// A request body whose validation passed.
pub struct ValidatedPayload<P>(pub P);

/// A form whose validation passed.
pub struct ValidatedForm<F>(pub F);

} // verus!
