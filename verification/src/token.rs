//! Readiness tokens and how an event is routed by the token it carries.
//!
//! Token 0 stands for the listening endpoint. Each connection holds two
//! tokens, made from one identifier of the pool: an odd one for its ingress
//! endpoint and the even one that follows for the tail of its pipeline. The
//! lowest bit of a token so tells the two sides apart without a second
//! lookup.

use vstd::prelude::*;

verus! {

/// The token of the listening endpoint.
pub const SERVER_TOKEN: usize = 0;

/// The greatest identifier that tokens can be made from.
pub const MAX_CONTEXT_ID: usize = (usize::MAX - 2) / 2;

/// The greatest token that a connection can hold.
pub const MAX_TOKEN: usize = 2 * MAX_CONTEXT_ID + 2;

/// What a token stands for.
#[derive(Clone, Copy, Debug, PartialEq, Eq, Structural)]
pub enum Route {
    /// The listening endpoint.
    Server,
    /// The ingress endpoint of a connection.
    Ingress,
    /// The tail of the pipeline of a connection.
    Pipeline,
}

/// What `token` stands for: zero for the listening endpoint, an odd token
/// for an ingress endpoint, any other even token for a pipeline.
pub open spec fn route_model(token: usize) -> Route {
    if token == SERVER_TOKEN {
        Route::Server
    } else if token % 2 == 1 {
        Route::Ingress
    } else {
        Route::Pipeline
    }
}

/// The token of the ingress endpoint of the connection `id`.
pub open spec fn ingress_token_model(id: usize) -> int {
    2 * id + 1
}

/// The token of the pipeline of the connection `id`.
pub open spec fn pipeline_token_model(id: usize) -> int {
    2 * id + 2
}

/// The identifier of the connection that `token` belongs to.
pub open spec fn context_id_model(token: usize) -> int {
    (token - 1) / 2
}

/// What `token` stands for.
pub fn route(token: usize) -> (side: Route)
    ensures
        side == route_model(token),
{
    if token == SERVER_TOKEN {
        Route::Server
    } else if token % 2 == 1 {
        Route::Ingress
    } else {
        Route::Pipeline
    }
}

/// The token of the ingress endpoint of the connection `id`.
pub fn ingress_token(id: usize) -> (token: usize)
    requires
        id <= MAX_CONTEXT_ID,
    ensures
        token == ingress_token_model(id),
{
    2 * id + 1
}

/// The token of the pipeline of the connection `id`.
pub fn pipeline_token(id: usize) -> (token: usize)
    requires
        id <= MAX_CONTEXT_ID,
    ensures
        token == pipeline_token_model(id),
{
    2 * id + 2
}

/// The identifier of the connection that `token` belongs to, or `None` for
/// a token that no connection can hold.
pub fn context_id(token: usize) -> (id: Option<usize>)
    ensures
        match id {
            Some(n) => token != SERVER_TOKEN && token <= MAX_TOKEN && n == context_id_model(
                token,
            ) && n <= MAX_CONTEXT_ID,
            None => token == SERVER_TOKEN || token > MAX_TOKEN,
        },
{
    if token == SERVER_TOKEN || token > MAX_TOKEN {
        None
    } else {
        Some((token - 1) / 2)
    }
}

/// The token of the ingress endpoint of the connection that `token` belongs
/// to, or `None` for a token that no connection can hold.
pub fn ingress_of(token: usize) -> (ingress: Option<usize>)
    ensures
        match ingress {
            Some(t) => token != SERVER_TOKEN && token <= MAX_TOKEN && t == ingress_token_model(
                context_id_model(token) as usize,
            ),
            None => token == SERVER_TOKEN || token > MAX_TOKEN,
        },
{
    match context_id(token) {
        Some(id) => Some(ingress_token(id)),
        None => None,
    }
}

/// Routing by parity: of the two tokens of a connection one is routed to
/// the ingress endpoint and the other to the pipeline; neither is the
/// token of the listening endpoint; both lead back to the connection; and
/// no two connections have a token in common.
pub proof fn routing_parity(id: usize, other: usize)
    requires
        id <= MAX_CONTEXT_ID,
        other <= MAX_CONTEXT_ID,
    ensures
        ingress_token_model(id) <= usize::MAX,
        pipeline_token_model(id) <= usize::MAX,
        route_model(ingress_token_model(id) as usize) == Route::Ingress,
        route_model(pipeline_token_model(id) as usize) == Route::Pipeline,
        context_id_model(ingress_token_model(id) as usize) == id,
        context_id_model(pipeline_token_model(id) as usize) == id,
        ingress_token_model(id) != pipeline_token_model(other),
        id != other ==> ingress_token_model(id) != ingress_token_model(other),
        id != other ==> pipeline_token_model(id) != pipeline_token_model(other),
{
}

/// Every token up to `MAX_TOKEN`, but that of the listening endpoint, is
/// one of the two tokens of exactly one connection, and its route says
/// which.
pub proof fn every_token_is_routed(token: usize)
    requires
        token != SERVER_TOKEN,
        token <= MAX_TOKEN,
    ensures
        0 <= context_id_model(token) <= MAX_CONTEXT_ID,
        route_model(token) == Route::Ingress ==> token == ingress_token_model(
            context_id_model(token) as usize,
        ),
        route_model(token) == Route::Pipeline ==> token == pipeline_token_model(
            context_id_model(token) as usize,
        ),
        route_model(token) != Route::Server,
{
}

} // verus!
