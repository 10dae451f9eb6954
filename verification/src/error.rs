//! What can go wrong between the command line and the printed answer.

use vstd::prelude::*;

verus! {

/// The reasons for which a route request ends without an answer.
#[derive(Clone, Copy, Debug, PartialEq, Eq, Structural)]
pub enum RouteError {
    /// The origin or the destination is not made of exactly two fields.
    Endpoints,
    /// The request parameters do not make a URL.
    Url,
    /// The service answered with a status other than 200; the status is kept.
    Status(u16),
    /// The answer is a text that the JSON reader refuses.
    Syntax,
    /// The answer reads as a JSON document of another shape than a route
    /// result.
    Shape,
}

} // verus!
