use vstd::prelude::*;

/// The failures that the front end reports.
pub mod error;
/// Addresses taken apart into host, port, path and query.
pub mod url;
/// Window geometry and the classification of pointer positions.
pub mod geometry;
/// Paint plans: the host primitives that draw the chrome and the page.
pub mod paint;
/// The input-mode state machine of the address bar.
pub mod session;
/// The steps of one navigation and how their failures end it.
pub mod navigation;
/// Queries over a document tree.
pub mod dom;

verus! {

} // verus!
