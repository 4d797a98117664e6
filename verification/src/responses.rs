//! Responses of the control API, as values; the socket server encodes them.
use vstd::prelude::*;

verus! {

/// The message of the refusal that every multi-tab mutation gets.
pub const MULTI_TAB_UNSUPPORTED_MESSAGE: &'static str =
    "multi-tab mutations are not supported; use workspaces instead";

/// The view of an optional string.
pub open spec fn opt_str_view(s: Option<String>) -> Option<Seq<char>> {
    match s {
        Some(s) => Some(s@),
        None => None,
    }
}

/// The views of a sequence of tab reports.
pub open spec fn tab_views(v: Seq<TabInfo>) -> Seq<TabInfoView> {
    v.map_values(|t: TabInfo| t@)
}

/// What the API reports about one tab.
pub struct TabInfo {
    /// The tab's public id.
    pub tab_id: String,
    /// The public id of the workspace that holds the tab.
    pub workspace_id: String,
    /// The tab's custom name, if it was given one.
    pub label: Option<String>,
    /// Whether the tab is the active tab of the active workspace.
    pub focused: bool,
}

#[verifier::ext_equal]
pub struct TabInfoView {
    pub tab_id: Seq<char>,
    pub workspace_id: Seq<char>,
    pub label: Option<Seq<char>>,
    pub focused: bool,
}

impl View for TabInfo {
    type V = TabInfoView;

    open spec fn view(&self) -> TabInfoView {
        TabInfoView {
            tab_id: self.tab_id@,
            workspace_id: self.workspace_id@,
            label: opt_str_view(self.label),
            focused: self.focused,
        }
    }
}

/// The payload of a successful response.
pub enum ResponseResult {
    TabList { tabs: Vec<TabInfo> },
    TabInfo { tab: TabInfo },
}

#[verifier::ext_equal]
pub enum ResultView {
    TabList { tabs: Seq<TabInfoView> },
    TabInfo { tab: TabInfoView },
}

impl View for ResponseResult {
    type V = ResultView;

    open spec fn view(&self) -> ResultView {
        match self {
            ResponseResult::TabList { tabs } => ResultView::TabList {
                tabs: tab_views(tabs@),
            },
            ResponseResult::TabInfo { tab } => ResultView::TabInfo { tab: tab@ },
        }
    }
}

/// A successful response to request `id`.
pub struct SuccessResponse {
    pub id: String,
    pub result: ResponseResult,
}

/// The code and human-readable message of a failed request.
pub struct ErrorBody {
    pub code: String,
    pub message: String,
}

/// A failed response to request `id`.
pub struct ErrorResponse {
    pub id: String,
    pub error: ErrorBody,
}

/// The answer to one API request.
pub enum Response {
    Success(SuccessResponse),
    Error(ErrorResponse),
}

#[verifier::ext_equal]
pub enum ResponseView {
    Success { id: Seq<char>, result: ResultView },
    Error { id: Seq<char>, code: Seq<char>, message: Seq<char> },
}

impl View for Response {
    type V = ResponseView;

    open spec fn view(&self) -> ResponseView {
        match self {
            Response::Success(s) => ResponseView::Success { id: s.id@, result: s.result@ },
            Response::Error(e) => ResponseView::Error {
                id: e.id@,
                code: e.error.code@,
                message: e.error.message@,
            },
        }
    }
}

/// The success response to request `id` carrying `result`.
pub fn encode_success(id: String, result: ResponseResult) -> (r: Response)
    ensures
        r@ == (ResponseView::Success { id: id@, result: result@ }),
{
    Response::Success(SuccessResponse { id, result })
}

/// The error response to request `id` with `code` and `message`.
pub fn encode_error(id: String, code: &str, message: String) -> (r: Response)
    ensures
        r@ == (ResponseView::Error { id: id@, code: code@, message: message@ }),
{
    Response::Error(ErrorResponse { id, error: ErrorBody { code: String::from_str(code), message } })
}

/// The refusal of a multi-tab mutation: workspaces take the place of tabs.
pub fn multi_tab_unsupported(id: String) -> (r: Response)
    ensures
        r@ == (ResponseView::Error {
            id: id@,
            code: "multi_tab_unsupported"@,
            message: MULTI_TAB_UNSUPPORTED_MESSAGE@,
        }),
{
    encode_error(id, "multi_tab_unsupported", String::from_str(MULTI_TAB_UNSUPPORTED_MESSAGE))
}

/// The error for a request naming a workspace that does not exist.
pub fn workspace_not_found(id: String, workspace_id: &str) -> (r: Response)
    ensures
        r@ == (ResponseView::Error {
            id: id@,
            code: "workspace_not_found"@,
            message: "workspace "@ + workspace_id@ + " not found"@,
        }),
{
    let mut message = String::from_str("workspace ");
    message.append(workspace_id);
    message.append(" not found");
    encode_error(id, "workspace_not_found", message)
}

/// The error for a request naming a tab that does not exist.
pub fn tab_not_found(id: String, tab_id: &str) -> (r: Response)
    ensures
        r@ == (ResponseView::Error {
            id: id@,
            code: "tab_not_found"@,
            message: "tab "@ + tab_id@ + " not found"@,
        }),
{
    let mut message = String::from_str("tab ");
    message.append(tab_id);
    message.append(" not found");
    encode_error(id, "tab_not_found", message)
}

} // verus!
