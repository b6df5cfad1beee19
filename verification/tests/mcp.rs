use originweave_network::mcp_request::{
    check_mcp_route, ActionKind, McpRouteRejection, McpToolBoundaryError, McpToolsListBoundaryError,
    ValidatedMcpToolCall, ValidatedMcpToolsListRequest, MCP_PROTOCOL_VERSION, MCP_TOOLS_CALL_METHOD,
    MCP_TOOLS_LIST_METHOD,
};

fn modern_call(
    protocol_version_header: Option<&str>,
    protocol_version_metadata: Option<&str>,
    client_capabilities_present: bool,
) -> Result<ValidatedMcpToolCall, McpToolBoundaryError> {
    ValidatedMcpToolCall::new_with_request_metadata(
        protocol_version_header,
        protocol_version_metadata,
        client_capabilities_present,
        MCP_TOOLS_CALL_METHOD,
        "originweave.observe",
        MCP_TOOLS_CALL_METHOD,
        "originweave.observe",
    )
}

#[test]
fn legacy_tools_call_shape_fails_closed_without_request_metadata() {
    assert_eq!(
        ValidatedMcpToolCall::new(
            MCP_PROTOCOL_VERSION,
            MCP_TOOLS_CALL_METHOD,
            "originweave.observe",
            MCP_TOOLS_CALL_METHOD,
            "originweave.observe",
        ),
        Err(McpToolBoundaryError::MissingProtocolVersionMetadata)
    );
}

#[test]
fn modern_tools_call_requires_both_protocol_version_surfaces() {
    assert_eq!(
        modern_call(None, Some(MCP_PROTOCOL_VERSION), true),
        Err(McpToolBoundaryError::MissingProtocolVersionHeader)
    );
    assert_eq!(
        modern_call(Some(MCP_PROTOCOL_VERSION), None, true),
        Err(McpToolBoundaryError::MissingProtocolVersionMetadata)
    );
}

#[test]
fn modern_tools_call_bounds_and_cross_checks_protocol_versions() {
    let oversized = format!("{MCP_PROTOCOL_VERSION}x");

    assert_eq!(
        modern_call(Some(&oversized), Some(MCP_PROTOCOL_VERSION), true),
        Err(McpToolBoundaryError::UnsupportedProtocolVersion)
    );
    assert_eq!(
        modern_call(Some(MCP_PROTOCOL_VERSION), Some(&oversized), true),
        Err(McpToolBoundaryError::UnsupportedProtocolVersion)
    );
    assert_eq!(
        modern_call(Some(MCP_PROTOCOL_VERSION), Some("2025-11-25"), true),
        Err(McpToolBoundaryError::ProtocolVersionHeaderBodyMismatch)
    );
    assert_eq!(
        modern_call(Some("2025-11-25"), Some("2025-11-25"), true),
        Err(McpToolBoundaryError::UnsupportedProtocolVersion)
    );
}

#[test]
fn modern_tools_call_requires_per_request_client_capabilities() {
    assert_eq!(
        modern_call(Some(MCP_PROTOCOL_VERSION), Some(MCP_PROTOCOL_VERSION), false),
        Err(McpToolBoundaryError::MissingClientCapabilities)
    );

    let call = modern_call(Some(MCP_PROTOCOL_VERSION), Some(MCP_PROTOCOL_VERSION), true);
    assert_eq!(call.as_ref().map(ValidatedMcpToolCall::tool_name), Ok("originweave.observe"));
}

#[test]
fn modern_stdio_tools_call_admits_body_metadata_without_http_headers() {
    let call = ValidatedMcpToolCall::new_for_stdio(
        Some(MCP_PROTOCOL_VERSION),
        true,
        MCP_TOOLS_CALL_METHOD,
        "originweave.observe",
    )
    .expect("modern stdio tools/call must not require Streamable HTTP headers");

    assert_eq!(call.tool_name(), "originweave.observe");
}

#[test]
fn modern_stdio_tools_call_still_requires_body_protocol_metadata_and_capabilities() {
    assert_eq!(
        ValidatedMcpToolCall::new_for_stdio(None, true, MCP_TOOLS_CALL_METHOD, "originweave.observe"),
        Err(McpToolBoundaryError::MissingProtocolVersionMetadata)
    );
    assert_eq!(
        ValidatedMcpToolCall::new_for_stdio(
            Some(MCP_PROTOCOL_VERSION),
            false,
            MCP_TOOLS_CALL_METHOD,
            "originweave.observe",
        ),
        Err(McpToolBoundaryError::MissingClientCapabilities)
    );
}

#[test]
fn modern_stdio_tools_list_admits_body_metadata_without_http_headers() {
    let request = ValidatedMcpToolsListRequest::new_for_stdio(
        Some(MCP_PROTOCOL_VERSION),
        true,
        MCP_TOOLS_LIST_METHOD,
        None,
    )
    .expect("modern stdio tools/list must not require Streamable HTTP headers");

    assert_eq!(request.method(), MCP_TOOLS_LIST_METHOD);
}

#[test]
fn modern_stdio_tools_list_still_requires_body_protocol_metadata_and_capabilities() {
    assert_eq!(
        ValidatedMcpToolsListRequest::new_for_stdio(None, true, MCP_TOOLS_LIST_METHOD, None),
        Err(McpToolsListBoundaryError::MissingProtocolVersionMetadata)
    );
    assert_eq!(
        ValidatedMcpToolsListRequest::new_for_stdio(Some(MCP_PROTOCOL_VERSION), false, MCP_TOOLS_LIST_METHOD, None),
        Err(McpToolsListBoundaryError::MissingClientCapabilities)
    );
}

#[test]
fn routing_refuses_bad_syntax_mismatch_other_methods_and_unknown_tools() {
    let v = Some(MCP_PROTOCOL_VERSION);
    let call = |rm: &str, rt: &str, bm: &str, bt: &str| {
        ValidatedMcpToolCall::new_with_request_metadata(v, v, true, rm, rt, bm, bt)
    };
    assert_eq!(call("tools call", "originweave.observe", "tools call", "originweave.observe"),
        Err(McpToolBoundaryError::InvalidMethod));
    assert_eq!(call("tools/call", "originweave.observe", "tools/list", "originweave.observe"),
        Err(McpToolBoundaryError::HeaderBodyMismatch));
    assert_eq!(call("tools/list", "originweave.observe", "tools/list", "originweave.observe"),
        Err(McpToolBoundaryError::UnsupportedMethod));
    assert_eq!(call("tools/call", "bad/name", "tools/call", "bad/name"),
        Err(McpToolBoundaryError::InvalidToolName));
    assert_eq!(call("tools/call", "originweave.observe", "tools/call", "originweave.other"),
        Err(McpToolBoundaryError::HeaderBodyMismatch));
    assert_eq!(call("tools/call", "originweave.other", "tools/call", "originweave.other"),
        Err(McpToolBoundaryError::UnknownTool));
    let long_tool = "a".repeat(129);
    assert_eq!(call("tools/call", &long_tool, "tools/call", &long_tool),
        Err(McpToolBoundaryError::InvalidToolName));
    let admitted = call("tools/call", "originweave.observe", "tools/call", "originweave.observe").expect("admitted");
    assert_eq!(admitted.action_kind(), ActionKind::Observe);
}

#[test]
fn tools_list_refuses_cursors_and_other_methods() {
    let v = Some(MCP_PROTOCOL_VERSION);
    assert_eq!(
        ValidatedMcpToolsListRequest::new(v, v, true, MCP_TOOLS_LIST_METHOD, MCP_TOOLS_LIST_METHOD, Some("next")),
        Err(McpToolsListBoundaryError::InvalidCursor)
    );
    assert_eq!(
        ValidatedMcpToolsListRequest::new(v, v, true, MCP_TOOLS_CALL_METHOD, MCP_TOOLS_CALL_METHOD, None),
        Err(McpToolsListBoundaryError::UnsupportedMethod)
    );
    assert_eq!(
        ValidatedMcpToolsListRequest::new(None, v, true, MCP_TOOLS_LIST_METHOD, MCP_TOOLS_LIST_METHOD, None),
        Err(McpToolsListBoundaryError::MissingProtocolVersionHeader)
    );
}

#[test]
fn route_check_refuses_an_action_the_route_does_not_name() {
    let call = ValidatedMcpToolCall::new_for_stdio(Some(MCP_PROTOCOL_VERSION), true, MCP_TOOLS_CALL_METHOD, "originweave.observe")
        .expect("admitted");
    assert_eq!(check_mcp_route(&call, ActionKind::Observe), Ok(()));
    let _ = McpRouteRejection::ActionMismatch;
    assert_eq!(McpToolBoundaryError::UnknownTool.to_string(), "MCP tool is not mapped to an OriginWeave typed action");
}
