//! MCP 2026-07-28 request-envelope validation for typed tool calls and catalog listing.
//!
//! The boundary binds transport protocol metadata to a bounded method and tool-name validator and
//! an explicit tool-to-action mapping. It retains no client identity or capability contents and
//! grants no browser, policy, secret or evidence authority.

use vstd::prelude::*;
use vstd::utf8::*;

use crate::json_text::text_equal;

verus! {

/// The one MCP protocol generation this boundary admits.
pub const MCP_PROTOCOL_VERSION: &'static str = "2026-07-28";

/// The MCP method that invokes one tool.
pub const MCP_TOOLS_CALL_METHOD: &'static str = "tools/call";

/// The MCP method that lists the tool catalog.
pub const MCP_TOOLS_LIST_METHOD: &'static str = "tools/list";

/// The catalog name of the read-only observation tool.
pub const MCP_OBSERVE_TOOL_NAME: &'static str = "originweave.observe";

/// Largest MCP method name admitted, in bytes.
pub const MAX_MCP_METHOD_NAME_BYTES: usize = 64;

/// Largest MCP tool name admitted, in bytes.
pub const MAX_MCP_TOOL_NAME_BYTES: usize = 128;

/// The typed action that an MCP tool is mapped to.
#[derive(Clone, Copy, Debug, PartialEq, Eq, Structural)]
pub enum ActionKind {
    /// Read-only observation of the current page.
    Observe,
}

/// A fail-closed rejection owned by the MCP routing boundary rather than policy.
#[derive(Clone, Copy, Debug, PartialEq, Eq, Structural)]
pub enum McpRouteRejection {
    /// The validated MCP route resolves to a different action than the typed request.
    ActionMismatch,
}

/// A deterministic failure while validating one MCP `tools/call` request.
#[derive(Clone, Copy, Debug, PartialEq, Eq, Structural)]
pub enum McpToolBoundaryError {
    /// The transport request omitted the required MCP protocol-version header.
    MissingProtocolVersionHeader,
    /// The structured request metadata omitted the required MCP protocol version.
    MissingProtocolVersionMetadata,
    /// The transport protocol version disagrees with the structured request metadata.
    ProtocolVersionHeaderBodyMismatch,
    /// The request names an MCP protocol generation this adapter does not support.
    UnsupportedProtocolVersion,
    /// The structured request metadata omitted the required client-capabilities object.
    MissingClientCapabilities,
    /// MCP routing metadata disagrees with the method or tool name in the body.
    HeaderBodyMismatch,
    /// The request method violates the bounded ASCII MCP routing syntax.
    InvalidMethod,
    /// The request method is not the supported `tools/call` operation.
    UnsupportedMethod,
    /// The tool name violates the bounded ASCII MCP routing syntax.
    InvalidToolName,
    /// The tool name has no explicit mapping to a typed action.
    UnknownTool,
}

/// A deterministic failure while validating one MCP `tools/list` request.
#[derive(Clone, Copy, Debug, PartialEq, Eq, Structural)]
pub enum McpToolsListBoundaryError {
    /// The transport request omitted the required MCP protocol-version header.
    MissingProtocolVersionHeader,
    /// The structured request metadata omitted the required MCP protocol version.
    MissingProtocolVersionMetadata,
    /// The transport protocol version disagrees with the structured request metadata.
    ProtocolVersionHeaderBodyMismatch,
    /// The request names an MCP protocol generation this adapter does not support.
    UnsupportedProtocolVersion,
    /// The structured request metadata omitted the required client-capabilities object.
    MissingClientCapabilities,
    /// MCP routing metadata disagrees with the method in the body.
    HeaderBodyMismatch,
    /// The request method violates the bounded ASCII MCP routing syntax.
    InvalidMethod,
    /// The request method is not the supported `tools/list` operation.
    UnsupportedMethod,
    /// The request names a pagination cursor, but the catalog is served as one page.
    InvalidCursor,
}

impl McpToolBoundaryError {
    /// Stable operator-facing description.
    pub open spec fn description(&self) -> Seq<char> {
        match self {
            McpToolBoundaryError::MissingProtocolVersionHeader => "MCP protocol version header is required"@,
            McpToolBoundaryError::MissingProtocolVersionMetadata => "MCP request metadata protocol version is required"@,
            McpToolBoundaryError::ProtocolVersionHeaderBodyMismatch => "MCP protocol version header does not match request metadata"@,
            McpToolBoundaryError::UnsupportedProtocolVersion => "unsupported MCP protocol version"@,
            McpToolBoundaryError::MissingClientCapabilities => "MCP request metadata client capabilities are required"@,
            McpToolBoundaryError::HeaderBodyMismatch => "MCP routing headers do not match the request body"@,
            McpToolBoundaryError::InvalidMethod => "MCP method violates the bounded ASCII routing syntax"@,
            McpToolBoundaryError::UnsupportedMethod => "only MCP tools/call requests can enter the typed action boundary"@,
            McpToolBoundaryError::InvalidToolName => "MCP tool name violates the bounded ASCII routing syntax"@,
            McpToolBoundaryError::UnknownTool => "MCP tool is not mapped to an OriginWeave typed action"@,
        }
    }

    /// Stable operator-facing description.
    pub fn to_string(&self) -> (text: String)
        ensures
            text@ == self.description(),
    {
        match self {
            McpToolBoundaryError::MissingProtocolVersionHeader => "MCP protocol version header is required".to_owned(),
            McpToolBoundaryError::MissingProtocolVersionMetadata => "MCP request metadata protocol version is required".to_owned(),
            McpToolBoundaryError::ProtocolVersionHeaderBodyMismatch => "MCP protocol version header does not match request metadata".to_owned(),
            McpToolBoundaryError::UnsupportedProtocolVersion => "unsupported MCP protocol version".to_owned(),
            McpToolBoundaryError::MissingClientCapabilities => "MCP request metadata client capabilities are required".to_owned(),
            McpToolBoundaryError::HeaderBodyMismatch => "MCP routing headers do not match the request body".to_owned(),
            McpToolBoundaryError::InvalidMethod => "MCP method violates the bounded ASCII routing syntax".to_owned(),
            McpToolBoundaryError::UnsupportedMethod => "only MCP tools/call requests can enter the typed action boundary".to_owned(),
            McpToolBoundaryError::InvalidToolName => "MCP tool name violates the bounded ASCII routing syntax".to_owned(),
            McpToolBoundaryError::UnknownTool => "MCP tool is not mapped to an OriginWeave typed action".to_owned(),
        }
    }
}

/// A character of the bounded ASCII MCP routing syntax for method names.
pub open spec fn is_method_char(c: char) -> bool {
    ('a' <= c && c <= 'z') || ('A' <= c && c <= 'Z') || ('0' <= c && c <= '9') || c == '/' || c == '_'
        || c == '.' || c == '-'
}

/// A character of the bounded ASCII MCP routing syntax for tool names.
pub open spec fn is_tool_name_char(c: char) -> bool {
    ('a' <= c && c <= 'z') || ('A' <= c && c <= 'Z') || ('0' <= c && c <= '9') || c == '_' || c == '.'
        || c == '-'
}

/// A non-empty method name of at most [`MAX_MCP_METHOD_NAME_BYTES`] bytes over the method
/// alphabet.
pub open spec fn method_syntax_valid(method: Seq<char>) -> bool {
    &&& method.len() > 0
    &&& encode_utf8(method).len() <= MAX_MCP_METHOD_NAME_BYTES
    &&& forall|i: int| 0 <= i < method.len() ==> is_method_char(#[trigger] method[i])
}

/// A non-empty tool name of at most [`MAX_MCP_TOOL_NAME_BYTES`] bytes over the tool-name
/// alphabet.
pub open spec fn tool_name_syntax_valid(tool: Seq<char>) -> bool {
    &&& tool.len() > 0
    &&& encode_utf8(tool).len() <= MAX_MCP_TOOL_NAME_BYTES
    &&& forall|i: int| 0 <= i < tool.len() ==> is_tool_name_char(#[trigger] tool[i])
}

/// The explicit tool-to-action mapping of the catalog.
pub open spec fn catalog_action(tool: Seq<char>) -> Option<ActionKind> {
    if tool == MCP_OBSERVE_TOOL_NAME@ {
        Some(ActionKind::Observe)
    } else {
        None
    }
}

/// The canonical catalog name of the tool mapped to `action`.
pub open spec fn catalog_tool_name(action: ActionKind) -> Seq<char> {
    match action {
        ActionKind::Observe => MCP_OBSERVE_TOOL_NAME@,
    }
}

/// The routing validation of one `tools/call` envelope: protocol generation, method syntax, method
/// agreement and support, tool-name syntax, tool-name agreement, then the catalog mapping.
pub open spec fn tool_call_route(
    protocol_version: Seq<char>,
    routing_method: Seq<char>,
    routing_tool_name: Seq<char>,
    body_method: Seq<char>,
    body_tool_name: Seq<char>,
) -> Result<ActionKind, McpToolBoundaryError> {
    if protocol_version != MCP_PROTOCOL_VERSION@ {
        Err(McpToolBoundaryError::UnsupportedProtocolVersion)
    } else if !method_syntax_valid(routing_method) || !method_syntax_valid(body_method) {
        Err(McpToolBoundaryError::InvalidMethod)
    } else if routing_method != body_method {
        Err(McpToolBoundaryError::HeaderBodyMismatch)
    } else if body_method != MCP_TOOLS_CALL_METHOD@ {
        Err(McpToolBoundaryError::UnsupportedMethod)
    } else if !tool_name_syntax_valid(routing_tool_name) || !tool_name_syntax_valid(body_tool_name) {
        Err(McpToolBoundaryError::InvalidToolName)
    } else if routing_tool_name != body_tool_name {
        Err(McpToolBoundaryError::HeaderBodyMismatch)
    } else {
        match catalog_action(body_tool_name) {
            Some(action) => Ok(action),
            None => Err(McpToolBoundaryError::UnknownTool),
        }
    }
}

/// The metadata checks that precede routing, shared by `tools/call` and `tools/list`: both
/// protocol-version surfaces present, each no longer than the supported version, equal to each
/// other and to the supported version, and the client-capabilities object present. The result
/// names the first failed check, in that order, with `None` when all pass.
pub enum MetadataFailure {
    /// No protocol-version header.
    MissingHeader,
    /// No protocol version in the request metadata.
    MissingMetadata,
    /// The two protocol-version surfaces disagree.
    Mismatch,
    /// A protocol version that is not the supported one.
    Unsupported,
    /// No client-capabilities object.
    MissingCapabilities,
}

/// The first metadata check that fails, if any.
pub open spec fn metadata_failure(
    header: Option<Seq<char>>,
    metadata: Option<Seq<char>>,
    client_capabilities_present: bool,
) -> Option<MetadataFailure> {
    match (header, metadata) {
        (None, _) => Some(MetadataFailure::MissingHeader),
        (Some(_), None) => Some(MetadataFailure::MissingMetadata),
        (Some(h), Some(m)) => {
            let supported = encode_utf8(MCP_PROTOCOL_VERSION@).len();
            if encode_utf8(h).len() > supported || encode_utf8(m).len() > supported {
                Some(MetadataFailure::Unsupported)
            } else if h != m {
                Some(MetadataFailure::Mismatch)
            } else if m != MCP_PROTOCOL_VERSION@ {
                Some(MetadataFailure::Unsupported)
            } else if !client_capabilities_present {
                Some(MetadataFailure::MissingCapabilities)
            } else {
                None
            }
        },
    }
}

/// The `tools/call` error for a failed metadata check.
pub open spec fn tool_call_metadata_error(failure: MetadataFailure) -> McpToolBoundaryError {
    match failure {
        MetadataFailure::MissingHeader => McpToolBoundaryError::MissingProtocolVersionHeader,
        MetadataFailure::MissingMetadata => McpToolBoundaryError::MissingProtocolVersionMetadata,
        MetadataFailure::Mismatch => McpToolBoundaryError::ProtocolVersionHeaderBodyMismatch,
        MetadataFailure::Unsupported => McpToolBoundaryError::UnsupportedProtocolVersion,
        MetadataFailure::MissingCapabilities => McpToolBoundaryError::MissingClientCapabilities,
    }
}

/// The full validation of one `tools/call` request with its metadata.
pub open spec fn tool_call_with_metadata(
    header: Option<Seq<char>>,
    metadata: Option<Seq<char>>,
    client_capabilities_present: bool,
    routing_method: Seq<char>,
    routing_tool_name: Seq<char>,
    body_method: Seq<char>,
    body_tool_name: Seq<char>,
) -> Result<ActionKind, McpToolBoundaryError> {
    match metadata_failure(header, metadata, client_capabilities_present) {
        Some(failure) => Err(tool_call_metadata_error(failure)),
        None => tool_call_route(metadata.unwrap(), routing_method, routing_tool_name, body_method, body_tool_name),
    }
}

/// The view of an optional text argument.
pub open spec fn optional_text(text: Option<&str>) -> Option<Seq<char>> {
    match text {
        Some(t) => Some(t@),
        None => None,
    }
}

/// Whether `method` is valid under the bounded ASCII method syntax.
pub fn method_syntax_is_valid(method: &str) -> (valid: bool)
    ensures
        valid == method_syntax_valid(method@),
{
    if method.is_empty() || method.as_bytes().len() > MAX_MCP_METHOD_NAME_BYTES {
        return false;
    }
    proof {
        broadcast use vstd::string::axiom_spec_iter;
    }
    for c in it: method.chars()
        invariant
            it.seq() == method@,
            forall|j: int| 0 <= j < it.index() ==> is_method_char(#[trigger] it.seq()[j]),
    {
        let allowed = ('a' <= c && c <= 'z') || ('A' <= c && c <= 'Z') || ('0' <= c && c <= '9') || c
            == '/' || c == '_' || c == '.' || c == '-';
        if !allowed {
            return false;
        }
    }
    true
}

/// Whether `tool` is valid under the bounded ASCII tool-name syntax.
pub fn tool_name_syntax_is_valid(tool: &str) -> (valid: bool)
    ensures
        valid == tool_name_syntax_valid(tool@),
{
    if tool.is_empty() || tool.as_bytes().len() > MAX_MCP_TOOL_NAME_BYTES {
        return false;
    }
    proof {
        broadcast use vstd::string::axiom_spec_iter;
    }
    for c in it: tool.chars()
        invariant
            it.seq() == tool@,
            forall|j: int| 0 <= j < it.index() ==> is_tool_name_char(#[trigger] it.seq()[j]),
    {
        let allowed = ('a' <= c && c <= 'z') || ('A' <= c && c <= 'Z') || ('0' <= c && c <= '9') || c
            == '_' || c == '.' || c == '-';
        if !allowed {
            return false;
        }
    }
    true
}

/// Validate one `tools/call` routing envelope and map its tool to a typed action.
pub fn route_tool_call(
    protocol_version: &str,
    routing_method: &str,
    routing_tool_name: &str,
    body_method: &str,
    body_tool_name: &str,
) -> (routed: Result<ActionKind, McpToolBoundaryError>)
    ensures
        routed == tool_call_route(protocol_version@, routing_method@, routing_tool_name@, body_method@, body_tool_name@),
{
    if !text_equal(protocol_version, MCP_PROTOCOL_VERSION) {
        return Err(McpToolBoundaryError::UnsupportedProtocolVersion);
    }
    if !method_syntax_is_valid(routing_method) || !method_syntax_is_valid(body_method) {
        return Err(McpToolBoundaryError::InvalidMethod);
    }
    if !text_equal(routing_method, body_method) {
        return Err(McpToolBoundaryError::HeaderBodyMismatch);
    }
    if !text_equal(body_method, MCP_TOOLS_CALL_METHOD) {
        return Err(McpToolBoundaryError::UnsupportedMethod);
    }
    if !tool_name_syntax_is_valid(routing_tool_name) || !tool_name_syntax_is_valid(body_tool_name) {
        return Err(McpToolBoundaryError::InvalidToolName);
    }
    if !text_equal(routing_tool_name, body_tool_name) {
        return Err(McpToolBoundaryError::HeaderBodyMismatch);
    }
    if text_equal(body_tool_name, MCP_OBSERVE_TOOL_NAME) {
        Ok(ActionKind::Observe)
    } else {
        Err(McpToolBoundaryError::UnknownTool)
    }
}

/// Find the first failed metadata check, if any.
pub fn check_request_metadata(
    protocol_version_header: Option<&str>,
    protocol_version_metadata: Option<&str>,
    client_capabilities_present: bool,
) -> (failure: Option<MetadataFailure>)
    ensures
        failure == metadata_failure(
            optional_text(protocol_version_header),
            optional_text(protocol_version_metadata),
            client_capabilities_present,
        ),
{
    let header = match protocol_version_header {
        Some(h) => h,
        None => return Some(MetadataFailure::MissingHeader),
    };
    let metadata = match protocol_version_metadata {
        Some(m) => m,
        None => return Some(MetadataFailure::MissingMetadata),
    };
    let supported = MCP_PROTOCOL_VERSION.as_bytes().len();
    if header.as_bytes().len() > supported || metadata.as_bytes().len() > supported {
        return Some(MetadataFailure::Unsupported);
    }
    if !text_equal(header, metadata) {
        return Some(MetadataFailure::Mismatch);
    }
    if !text_equal(metadata, MCP_PROTOCOL_VERSION) {
        return Some(MetadataFailure::Unsupported);
    }
    if !client_capabilities_present {
        return Some(MetadataFailure::MissingCapabilities);
    }
    None
}

/// An MCP tool call whose required request metadata and routing envelope were validated.
///
/// The value proves protocol-envelope integrity only. Client capability contents and optional
/// client information are not retained: self-reported client metadata is no authorization signal.
#[derive(Clone, Copy, Debug, PartialEq, Eq)]
pub struct ValidatedMcpToolCall {
    action: ActionKind,
}

impl View for ValidatedMcpToolCall {
    type V = ActionKind;

    closed spec fn view(&self) -> ActionKind {
        self.action
    }
}

impl ValidatedMcpToolCall {
    /// Fail closed for the constructor shape without request metadata.
    ///
    /// Malformed routing still gets its deterministic routing error, but a syntactically valid
    /// route is refused because this signature cannot prove the per-request protocol metadata or
    /// the presence of client capabilities.
    pub fn new(
        protocol_version: &str,
        routing_method: &str,
        routing_tool_name: &str,
        body_method: &str,
        body_tool_name: &str,
    ) -> (call: Result<Self, McpToolBoundaryError>)
        ensures
            call == match tool_call_route(protocol_version@, routing_method@, routing_tool_name@, body_method@, body_tool_name@) {
                Err(e) => Err::<Self, McpToolBoundaryError>(e),
                Ok(_) => Err(McpToolBoundaryError::MissingProtocolVersionMetadata),
            },
    {
        match route_tool_call(protocol_version, routing_method, routing_tool_name, body_method, body_tool_name) {
            Err(e) => Err(e),
            Ok(_) => Err(McpToolBoundaryError::MissingProtocolVersionMetadata),
        }
    }

    /// Validate one `tools/call` request envelope with its request metadata.
    ///
    /// The protocol-version header and the request-metadata protocol version are both mandatory,
    /// bounded before comparison, must agree exactly and must equal [`MCP_PROTOCOL_VERSION`]; the
    /// client-capabilities object must be present. Routing validation and the explicit
    /// tool-to-action mapping follow.
    pub fn new_with_request_metadata(
        protocol_version_header: Option<&str>,
        protocol_version_metadata: Option<&str>,
        client_capabilities_present: bool,
        routing_method: &str,
        routing_tool_name: &str,
        body_method: &str,
        body_tool_name: &str,
    ) -> (call: Result<Self, McpToolBoundaryError>)
        ensures
            match tool_call_with_metadata(
                optional_text(protocol_version_header),
                optional_text(protocol_version_metadata),
                client_capabilities_present,
                routing_method@,
                routing_tool_name@,
                body_method@,
                body_tool_name@,
            ) {
                Ok(action) => call matches Ok(c) && c@ == action,
                Err(e) => call == Err::<Self, McpToolBoundaryError>(e),
            },
    {
        match check_request_metadata(protocol_version_header, protocol_version_metadata, client_capabilities_present) {
            Some(MetadataFailure::MissingHeader) => Err(McpToolBoundaryError::MissingProtocolVersionHeader),
            Some(MetadataFailure::MissingMetadata) => Err(McpToolBoundaryError::MissingProtocolVersionMetadata),
            Some(MetadataFailure::Mismatch) => Err(McpToolBoundaryError::ProtocolVersionHeaderBodyMismatch),
            Some(MetadataFailure::Unsupported) => Err(McpToolBoundaryError::UnsupportedProtocolVersion),
            Some(MetadataFailure::MissingCapabilities) => Err(McpToolBoundaryError::MissingClientCapabilities),
            None => {
                let metadata = match protocol_version_metadata {
                    Some(m) => m,
                    None => return Err(McpToolBoundaryError::MissingProtocolVersionMetadata),
                };
                match route_tool_call(metadata, routing_method, routing_tool_name, body_method, body_tool_name) {
                    Ok(action) => Ok(ValidatedMcpToolCall { action }),
                    Err(e) => Err(e),
                }
            },
        }
    }

    /// Validate one stdio `tools/call` request envelope.
    ///
    /// Stdio has no HTTP routing headers: the body protocol version stands for both protocol
    /// surfaces, and the body method and tool name for both routing surfaces.
    pub fn new_for_stdio(
        protocol_version_metadata: Option<&str>,
        client_capabilities_present: bool,
        body_method: &str,
        body_tool_name: &str,
    ) -> (call: Result<Self, McpToolBoundaryError>)
        ensures
            protocol_version_metadata is None ==> call == Err::<Self, McpToolBoundaryError>(
                McpToolBoundaryError::MissingProtocolVersionMetadata,
            ),
            protocol_version_metadata is Some ==> match tool_call_with_metadata(
                optional_text(protocol_version_metadata),
                optional_text(protocol_version_metadata),
                client_capabilities_present,
                body_method@,
                body_tool_name@,
                body_method@,
                body_tool_name@,
            ) {
                Ok(action) => call matches Ok(c) && c@ == action,
                Err(e) => call == Err::<Self, McpToolBoundaryError>(e),
            },
    {
        let metadata = match protocol_version_metadata {
            Some(m) => m,
            None => return Err(McpToolBoundaryError::MissingProtocolVersionMetadata),
        };
        Self::new_with_request_metadata(
            Some(metadata),
            Some(metadata),
            client_capabilities_present,
            body_method,
            body_tool_name,
            body_method,
            body_tool_name,
        )
    }

    /// The canonical static tool name selected by the explicit mapping.
    pub fn tool_name(&self) -> (name: &'static str)
        ensures
            name@ == catalog_tool_name(self@),
    {
        match self.action {
            ActionKind::Observe => MCP_OBSERVE_TOOL_NAME,
        }
    }

    /// The typed action selected by this tool.
    pub fn action_kind(&self) -> (action: ActionKind)
        ensures
            action == self@,
    {
        self.action
    }
}

/// Check that a validated MCP route names the same action as the typed request it accompanies,
/// before that request reaches policy evaluation.
pub fn check_mcp_route(call: &ValidatedMcpToolCall, requested: ActionKind) -> (checked: Result<(), McpRouteRejection>)
    ensures
        checked is Ok <==> call@ == requested,
        checked is Err ==> checked == Err::<(), McpRouteRejection>(McpRouteRejection::ActionMismatch),
{
    if call.action_kind() != requested {
        Err(McpRouteRejection::ActionMismatch)
    } else {
        Ok(())
    }
}

/// The `tools/list` error for a failed metadata check.
pub open spec fn tools_list_metadata_error(failure: MetadataFailure) -> McpToolsListBoundaryError {
    match failure {
        MetadataFailure::MissingHeader => McpToolsListBoundaryError::MissingProtocolVersionHeader,
        MetadataFailure::MissingMetadata => McpToolsListBoundaryError::MissingProtocolVersionMetadata,
        MetadataFailure::Mismatch => McpToolsListBoundaryError::ProtocolVersionHeaderBodyMismatch,
        MetadataFailure::Unsupported => McpToolsListBoundaryError::UnsupportedProtocolVersion,
        MetadataFailure::MissingCapabilities => McpToolsListBoundaryError::MissingClientCapabilities,
    }
}

/// The full validation of one `tools/list` request: the metadata checks, then method syntax,
/// method agreement and support, and finally the absence of a pagination cursor.
pub open spec fn tools_list_request(
    header: Option<Seq<char>>,
    metadata: Option<Seq<char>>,
    client_capabilities_present: bool,
    routing_method: Seq<char>,
    body_method: Seq<char>,
    cursor: Option<Seq<char>>,
) -> Result<(), McpToolsListBoundaryError> {
    match metadata_failure(header, metadata, client_capabilities_present) {
        Some(failure) => Err(tools_list_metadata_error(failure)),
        None => if !method_syntax_valid(routing_method) || !method_syntax_valid(body_method) {
            Err(McpToolsListBoundaryError::InvalidMethod)
        } else if routing_method != body_method {
            Err(McpToolsListBoundaryError::HeaderBodyMismatch)
        } else if body_method != MCP_TOOLS_LIST_METHOD@ {
            Err(McpToolsListBoundaryError::UnsupportedMethod)
        } else if cursor is Some {
            Err(McpToolsListBoundaryError::InvalidCursor)
        } else {
            Ok(())
        },
    }
}

/// An MCP `tools/list` request whose metadata and routing envelope were validated.
#[derive(Clone, Copy, Debug, PartialEq, Eq)]
pub struct ValidatedMcpToolsListRequest {
    method: &'static str,
}

impl View for ValidatedMcpToolsListRequest {
    type V = Seq<char>;

    closed spec fn view(&self) -> Seq<char> {
        self.method@
    }
}

impl ValidatedMcpToolsListRequest {
    /// Validate one `tools/list` request envelope with its request metadata.
    pub fn new(
        protocol_version_header: Option<&str>,
        protocol_version_metadata: Option<&str>,
        client_capabilities_present: bool,
        routing_method: &str,
        body_method: &str,
        cursor: Option<&str>,
    ) -> (request: Result<Self, McpToolsListBoundaryError>)
        ensures
            match tools_list_request(
                optional_text(protocol_version_header),
                optional_text(protocol_version_metadata),
                client_capabilities_present,
                routing_method@,
                body_method@,
                optional_text(cursor),
            ) {
                Ok(_) => request matches Ok(r) && r@ == MCP_TOOLS_LIST_METHOD@,
                Err(e) => request == Err::<Self, McpToolsListBoundaryError>(e),
            },
    {
        match check_request_metadata(protocol_version_header, protocol_version_metadata, client_capabilities_present) {
            Some(MetadataFailure::MissingHeader) => Err(McpToolsListBoundaryError::MissingProtocolVersionHeader),
            Some(MetadataFailure::MissingMetadata) => Err(McpToolsListBoundaryError::MissingProtocolVersionMetadata),
            Some(MetadataFailure::Mismatch) => Err(McpToolsListBoundaryError::ProtocolVersionHeaderBodyMismatch),
            Some(MetadataFailure::Unsupported) => Err(McpToolsListBoundaryError::UnsupportedProtocolVersion),
            Some(MetadataFailure::MissingCapabilities) => Err(McpToolsListBoundaryError::MissingClientCapabilities),
            None => {
                if !method_syntax_is_valid(routing_method) || !method_syntax_is_valid(body_method) {
                    return Err(McpToolsListBoundaryError::InvalidMethod);
                }
                if !text_equal(routing_method, body_method) {
                    return Err(McpToolsListBoundaryError::HeaderBodyMismatch);
                }
                if !text_equal(body_method, MCP_TOOLS_LIST_METHOD) {
                    return Err(McpToolsListBoundaryError::UnsupportedMethod);
                }
                if cursor.is_some() {
                    return Err(McpToolsListBoundaryError::InvalidCursor);
                }
                Ok(ValidatedMcpToolsListRequest { method: MCP_TOOLS_LIST_METHOD })
            },
        }
    }

    /// Validate one stdio `tools/list` request envelope.
    ///
    /// Stdio carries the protocol metadata and method in the request body and has no HTTP routing
    /// headers: the body values stand for both surfaces.
    pub fn new_for_stdio(
        protocol_version_metadata: Option<&str>,
        client_capabilities_present: bool,
        body_method: &str,
        cursor: Option<&str>,
    ) -> (request: Result<Self, McpToolsListBoundaryError>)
        ensures
            protocol_version_metadata is None ==> request == Err::<Self, McpToolsListBoundaryError>(
                McpToolsListBoundaryError::MissingProtocolVersionMetadata,
            ),
            protocol_version_metadata is Some ==> match tools_list_request(
                optional_text(protocol_version_metadata),
                optional_text(protocol_version_metadata),
                client_capabilities_present,
                body_method@,
                body_method@,
                optional_text(cursor),
            ) {
                Ok(_) => request matches Ok(r) && r@ == MCP_TOOLS_LIST_METHOD@,
                Err(e) => request == Err::<Self, McpToolsListBoundaryError>(e),
            },
    {
        let metadata = match protocol_version_metadata {
            Some(m) => m,
            None => return Err(McpToolsListBoundaryError::MissingProtocolVersionMetadata),
        };
        Self::new(Some(metadata), Some(metadata), client_capabilities_present, body_method, body_method, cursor)
    }

    /// The validated method, always [`MCP_TOOLS_LIST_METHOD`].
    pub fn method(&self) -> (method: &'static str)
        ensures
            method@ == self@,
    {
        self.method
    }
}

/// Every action of the catalog is reached from exactly the canonical tool name it reports.
pub proof fn lemma_catalog_names_round_trip(action: ActionKind)
    ensures
        catalog_action(catalog_tool_name(action)) == Some(action),
        tool_name_syntax_valid(catalog_tool_name(action)),
{
    reveal_strlit("originweave.observe");
    let name = catalog_tool_name(action);
    assert(encode_utf8(name).len() <= MAX_MCP_TOOL_NAME_BYTES) by {
        vstd::utf8::is_ascii_chars_encode_utf8(name);
    }
}

} // verus!
