//! Routes each JSON-RPC message to one of three actions.
//!
//! The routing table is static and keyed on `(method, Direction)`.

use vstd::prelude::*;

use crate::json;
use crate::text::same_text;

verus! {

/// Which direction a message is travelling.
#[derive(Debug, Clone, Copy, PartialEq, Eq, Structural)]
pub enum Direction {
    /// Helix → language server.
    HelixToUpstream,
    /// Language server → Helix.
    UpstreamToHelix,
}

/// What the proxy should do with a message.
#[derive(Debug, Clone, Copy, PartialEq, Eq, Structural)]
pub enum RouteAction {
    /// Forward the message to the other side unchanged.
    PassThrough,
    /// Swallow the message entirely; do not forward it.
    Drop,
    /// The proxy intercepts and handles this message itself.
    /// The caller is responsible for implementing the handler.
    Intercept,
}

/// The methods from Helix that the proxy handles itself.
pub open spec fn is_intercepted(method: Seq<char>) -> bool {
    ||| method == "textDocument/completion"@
    ||| method == "$/cancelRequest"@
}

/// The notifications of the language server that mean nothing to Helix.
pub open spec fn is_internal(method: Seq<char>) -> bool {
    ||| method == "$/logTrace"@
    ||| method == "$/progress"@
    ||| method == "featureFlagsNotification"@
    ||| method == "didChangeStatus"@
    ||| method == "statusNotification"@
    ||| method == "policy/didChange"@
    ||| method == "copilot/mcpTools"@
    ||| method == "conversation/preconditionsNotification"@
}

/// The routing table.
pub open spec fn routed(method: Option<Seq<char>>, dir: Direction) -> RouteAction {
    match (method, dir) {
        (Some(method), Direction::HelixToUpstream) => if is_intercepted(method) {
            RouteAction::Intercept
        } else {
            RouteAction::PassThrough
        },
        (Some(method), Direction::UpstreamToHelix) => if is_internal(method) {
            RouteAction::Drop
        } else {
            RouteAction::PassThrough
        },
        (None, _) => RouteAction::PassThrough,
    }
}

/// Decide what to do with `method` travelling in `dir`.
///
/// `method` is `None` for responses (which are always passed through, since
/// the proxy correlates them by request id rather than method name).
pub fn route(method: Option<&str>, dir: Direction) -> (r: RouteAction)
    ensures
        r == routed(json::str_view(method), dir),
{
    let method = match method {
        Some(method) => method,
        None => return RouteAction::PassThrough,
    };
    match dir {
        Direction::HelixToUpstream => if same_text(method, "textDocument/completion") || same_text(
            method,
            "$/cancelRequest",
        ) {
            RouteAction::Intercept
        } else {
            RouteAction::PassThrough
        },
        // Drop these so they never reach Helix and cause spurious errors.
        Direction::UpstreamToHelix => if same_text(method, "$/logTrace") || same_text(
            method,
            "$/progress",
        ) || same_text(method, "featureFlagsNotification") || same_text(method, "didChangeStatus")
            || same_text(method, "statusNotification") || same_text(method, "policy/didChange")
            || same_text(method, "copilot/mcpTools") || same_text(
            method,
            "conversation/preconditionsNotification",
        ) {
            RouteAction::Drop
        } else {
            RouteAction::PassThrough
        },
    }
}

/// A response, which has no method, passes through in both directions.
pub proof fn law_responses_pass_through(dir: Direction)
    ensures
        routed(None, dir) == RouteAction::PassThrough,
{
}

/// Nothing that Helix sends is dropped, and nothing that the language server
/// sends is intercepted by its method.
pub proof fn law_actions_by_direction(method: Option<Seq<char>>)
    ensures
        routed(method, Direction::HelixToUpstream) != RouteAction::Drop,
        routed(method, Direction::UpstreamToHelix) != RouteAction::Intercept,
{
}

/// A method that the proxy neither handles itself nor hides passes through in
/// both directions.
pub proof fn law_other_methods_pass_through(method: Seq<char>, dir: Direction)
    requires
        !is_intercepted(method),
        !is_internal(method),
    ensures
        routed(Some(method), dir) == RouteAction::PassThrough,
{
}

/// The proxy handles two methods of Helix itself, and no others.
pub proof fn law_intercepted_methods(method: Option<Seq<char>>, dir: Direction)
    ensures
        routed(method, dir) == RouteAction::Intercept <==> dir == Direction::HelixToUpstream && (
        method == Some("textDocument/completion"@) || method == Some("$/cancelRequest"@)),
{
}

/// Eight methods of the language server never reach Helix, and every other does.
pub proof fn law_dropped_methods(method: Option<Seq<char>>, dir: Direction)
    ensures
        routed(method, dir) == RouteAction::Drop <==> dir == Direction::UpstreamToHelix && (method
            == Some("$/logTrace"@) || method == Some("$/progress"@) || method == Some(
            "featureFlagsNotification"@,
        ) || method == Some("didChangeStatus"@) || method == Some("statusNotification"@) || method
            == Some("policy/didChange"@) || method == Some("copilot/mcpTools"@) || method == Some(
            "conversation/preconditionsNotification"@,
        )),
{
}

} // verus!
