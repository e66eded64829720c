use copilot_helix::router::{route, Direction, RouteAction};

#[test]
fn responses_always_pass_through() {
    assert_eq!(
        route(None, Direction::HelixToUpstream),
        RouteAction::PassThrough
    );
    assert_eq!(
        route(None, Direction::UpstreamToHelix),
        RouteAction::PassThrough
    );
}

#[test]
fn unknown_methods_pass_through() {
    assert_eq!(
        route(Some("textDocument/hover"), Direction::HelixToUpstream),
        RouteAction::PassThrough
    );
    assert_eq!(
        route(Some("textDocument/definition"), Direction::UpstreamToHelix),
        RouteAction::PassThrough
    );
}

#[test]
fn copilot_internal_notifications_dropped() {
    for method in &[
        "featureFlagsNotification",
        "didChangeStatus",
        "statusNotification",
        "policy/didChange",
        "copilot/mcpTools",
        "conversation/preconditionsNotification",
        "$/logTrace",
        "$/progress",
    ] {
        assert_eq!(
            route(Some(method), Direction::UpstreamToHelix),
            RouteAction::Drop,
            "expected {method} to be dropped"
        );
    }
}

#[test]
fn copilot_internals_not_dropped_in_wrong_direction() {
    // These come from upstream; if Helix somehow sent them they'd pass through.
    assert_eq!(
        route(Some("featureFlagsNotification"), Direction::HelixToUpstream),
        RouteAction::PassThrough
    );
}

#[test]
fn completions_and_cancellations_are_intercepted() {
    for method in &["textDocument/completion", "$/cancelRequest"] {
        assert_eq!(
            route(Some(method), Direction::HelixToUpstream),
            RouteAction::Intercept
        );
        assert_eq!(
            route(Some(method), Direction::UpstreamToHelix),
            RouteAction::PassThrough
        );
    }
}

#[test]
fn methods_are_matched_whole() {
    for method in &["$/progress/", "textDocument/completio", ""] {
        assert_eq!(
            route(Some(method), Direction::HelixToUpstream),
            RouteAction::PassThrough
        );
        assert_eq!(
            route(Some(method), Direction::UpstreamToHelix),
            RouteAction::PassThrough
        );
    }
}
