//! Endpoint descriptors: one declarative contract per API operation, giving
//! its HTTP method, its path, and the three data shapes it exchanges.

use vstd::prelude::*;

pub mod auth;
pub mod projects;
pub mod user;

verus! {

/// HTTP method of endpoint.
#[derive(Clone, Copy, PartialEq, Eq, Structural, Debug)]
pub enum HTTPMethod {
    Get,
    Post,
    Put,
    Patch,
    Delete,
}

/// Describes an API endpoint.
///
/// The associated shapes tie each operation to its query, body and response
/// types; a handler for the endpoint returns an envelope over exactly
/// `Self::Response`, so descriptor and handler cannot drift apart.
pub trait Endpoint {
    type Query;

    type Body;

    type Response;

    spec fn spec_method() -> HTTPMethod;

    spec fn spec_partial_path() -> Seq<char>;

    spec fn spec_path(&self) -> Seq<char>;

    /// HTTP method of endpoint.
    fn method() -> (r: HTTPMethod)
        ensures
            r == Self::spec_method(),
    ;

    /// Partial path in the endpoint's resource group.
    fn partial_path() -> (r: &'static str)
        ensures
            r@ == Self::spec_partial_path(),
    ;

    /// Full path for this configuration: group prefix plus fragment, with
    /// path parameters substituted when the descriptor instance carries them.
    fn build_path(&self) -> (r: String)
        ensures
            r@ == self.spec_path(),
    ;
}

} // verus!
