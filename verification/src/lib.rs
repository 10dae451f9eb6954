//! Client-side model of a vehicle route-calculation web service: the query
//! parameters of a request, and the JSON document that answers it.
//!
//! The request side turns a [`params::CalcRouteRequestParam`] into an ordered
//! list of key/value pairs and into a URL. The response side reads the body
//! of a response into a [`response::RouteResult`] and writes it out again.
//! Both sides are specified over mathematical models and proved against
//! them; what is taken on trust from other crates is gathered in [`json`]
//! and in [`request`].

pub mod codes;
pub mod error;
pub mod guide;
pub mod json;
pub mod params;
pub mod position;
pub mod request;
pub mod response;
pub mod schema;
pub mod text;
