//! Tab requests of the control API.
//!
//! Tabs are a legacy concept: workspaces take their place. Tabs can be listed and
//! inspected, and focusing the tab that already has focus succeeds; every request
//! that would change tabs is refused. No tab request changes the application state.
use vstd::prelude::*;
use crate::responses::{
    encode_success, multi_tab_unsupported, opt_str_view, tab_not_found, workspace_not_found,
    tab_views, Response, ResponseResult, ResponseView, ResultView, TabInfo, TabInfoView,
    MULTI_TAB_UNSUPPORTED_MESSAGE,
};

verus! {

/// A tab of a workspace.
pub struct Tab {
    /// The tab's public id.
    pub id: String,
    /// The name the user gave the tab, if any.
    pub custom_name: Option<String>,
    /// The pane at the root of the tab's layout.
    pub root_pane: u64,
}

/// A workspace and its tabs.
pub struct Workspace {
    /// The workspace's public id.
    pub id: String,
    pub tabs: Vec<Tab>,
    /// Index of the workspace's active tab.
    pub active_tab: usize,
}

impl Workspace {
    /// Index of the workspace's active tab.
    pub fn active_tab_index(&self) -> (r: usize)
        ensures
            r == self.active_tab,
    {
        self.active_tab
    }
}

/// Sequence numbers of the events published to API subscribers, oldest first.
pub struct EventHub {
    pub events: Vec<u64>,
}

impl EventHub {
    /// A hub that has published nothing.
    pub fn new() -> (h: Self)
        ensures
            h.events@ == Seq::<u64>::empty(),
    {
        EventHub { events: Vec::new() }
    }

    /// The sequence numbers of the events published after event `seq`, oldest first.
    pub fn events_after(&self, seq: u64) -> (r: Vec<u64>)
        ensures
            r@ == self.events@.filter(|e: u64| e > seq),
    {
        let mut r: Vec<u64> = Vec::new();
        let mut i: usize = 0;
        while i < self.events.len()
            invariant
                i <= self.events@.len(),
                r@ == self.events@.subrange(0, i as int).filter(|e: u64| e > seq),
            decreases self.events@.len() - i,
        {
            proof {
                let next = self.events@.subrange(0, i + 1);
                assert(next.drop_last() =~= self.events@.subrange(0, i as int));
                reveal_with_fuel(Seq::filter, 1);
            }
            if self.events[i] > seq {
                r.push(self.events[i]);
            }
            i = i + 1;
        }
        assert(self.events@.subrange(0, self.events@.len() as int) =~= self.events@);
        r
    }
}

/// The state the tab requests read.
pub struct AppState {
    pub workspaces: Vec<Workspace>,
    /// Index of the focused workspace.
    pub active: Option<usize>,
    /// Index of the workspace selected in the sidebar.
    pub selected: usize,
    /// Whether the session changed since it was last saved.
    pub session_dirty: bool,
}

/// The application, as far as the tab requests see it.
pub struct App {
    pub state: AppState,
    pub event_hub: EventHub,
}

/// Parameters of `tab.list`.
pub struct TabListParams {
    /// List only the tabs of this workspace.
    pub workspace_id: Option<String>,
}

/// The tab a request names.
pub struct TabTarget {
    pub tab_id: String,
}

/// Parameters of `tab.create`.
pub struct TabCreateParams {
    pub workspace_id: Option<String>,
    pub cwd: Option<String>,
    pub focus: bool,
    pub label: Option<String>,
    pub env: Vec<(String, String)>,
}

/// Parameters of `tab.rename`.
pub struct TabRenameParams {
    pub tab_id: String,
    pub label: String,
}

/// Parameters of `tab.move`.
pub struct TabMoveParams {
    pub tab_id: String,
    pub insert_index: usize,
}

impl App {
    /// The public id of workspace `w`.
    pub open spec fn ws_id(self, w: int) -> Seq<char> {
        self.state.workspaces@[w].id@
    }

    /// The number of tabs of workspace `w`.
    pub open spec fn tab_count(self, w: int) -> int {
        self.state.workspaces@[w].tabs@.len() as int
    }

    /// The public id of tab `t` of workspace `w`.
    pub open spec fn tab_id(self, w: int, t: int) -> Seq<char> {
        self.state.workspaces@[w].tabs@[t].id@
    }

    /// Whether `(w, t)` names an existing tab.
    pub open spec fn has_tab(self, w: int, t: int) -> bool {
        0 <= w < self.state.workspaces@.len() && 0 <= t < self.tab_count(w)
    }

    /// Whether workspace `w` is the first one with public id `id`.
    pub open spec fn first_workspace_with_id(self, id: Seq<char>, w: int) -> bool {
        &&& 0 <= w < self.state.workspaces@.len()
        &&& self.ws_id(w) == id
        &&& forall|v: int| 0 <= v < w ==> self.ws_id(v) != id
    }

    /// The index of the first workspace with public id `id`.
    pub open spec fn workspace_lookup(self, id: Seq<char>) -> Option<int> {
        if exists|w: int| self.first_workspace_with_id(id, w) {
            Some(choose|w: int| self.first_workspace_with_id(id, w))
        } else {
            None
        }
    }

    /// Whether `(w, t)` is an existing tab with public id `id` that comes before every
    /// other such tab, workspace by workspace and tab by tab.
    pub open spec fn first_tab_with_id(self, id: Seq<char>, w: int, t: int) -> bool {
        &&& self.has_tab(w, t)
        &&& self.tab_id(w, t) == id
        &&& forall|v: int, u: int|
            #![trigger self.tab_id(v, u)]
            self.has_tab(v, u) && (v < w || (v == w && u < t)) ==> self.tab_id(v, u) != id
    }

    /// The workspace and tab index of the first tab with public id `id`.
    pub open spec fn tab_lookup(self, id: Seq<char>) -> Option<(int, int)> {
        if exists|w: int, t: int| self.first_tab_with_id(id, w, t) {
            let (w, t) = choose|w: int, t: int| self.first_tab_with_id(id, w, t);
            Some((w, t))
        } else {
            None
        }
    }

    /// What the API reports about tab `t` of workspace `w`.
    pub open spec fn tab_view(self, w: int, t: int) -> TabInfoView {
        TabInfoView {
            tab_id: self.tab_id(w, t),
            workspace_id: self.ws_id(w),
            label: opt_str_view(self.state.workspaces@[w].tabs@[t].custom_name),
            focused: self.state.active == Some(w as usize) && self.state.workspaces@[w].active_tab
                == t,
        }
    }

    /// The reports about the first `n` tabs of workspace `w`, in order.
    pub open spec fn workspace_tab_views(self, w: int, n: int) -> Seq<TabInfoView> {
        Seq::new(n as nat, |t: int| self.tab_view(w, t))
    }

    /// The reports about all tabs of the first `n` workspaces, workspace by workspace.
    pub open spec fn all_tab_views(self, n: int) -> Seq<TabInfoView>
        decreases n,
    {
        if n <= 0 {
            Seq::empty()
        } else {
            self.all_tab_views(n - 1) + self.workspace_tab_views(n - 1, self.tab_count(n - 1))
        }
    }

    /// Whether tab `(w, t)` is the active tab of the focused workspace.
    pub open spec fn is_current_active_tab(self, w: int, t: int) -> bool {
        self.state.active == Some(w as usize) && self.state.workspaces@[w].active_tab == t
    }

    /// The index of the first workspace whose public id is `workspace_id`.
    pub fn parse_workspace_id(&self, workspace_id: &String) -> (r: Option<usize>)
        ensures
            r matches Some(w) ==> self.workspace_lookup(workspace_id@) == Some(w as int),
            r is None ==> self.workspace_lookup(workspace_id@) is None,
    {
        let n = self.state.workspaces.len();
        let mut w: usize = 0;
        while w < n
            invariant
                n == self.state.workspaces@.len(),
                w <= n,
                forall|v: int| 0 <= v < w ==> self.ws_id(v) != workspace_id@,
            decreases n - w,
        {
            if self.state.workspaces[w].id == *workspace_id {
                assert(self.first_workspace_with_id(workspace_id@, w as int));
                proof {
                    let c = choose|c: int| self.first_workspace_with_id(workspace_id@, c);
                    assert(c == w);
                }
                return Some(w);
            }
            w = w + 1;
        }
        assert(!exists|c: int| self.first_workspace_with_id(workspace_id@, c));
        None
    }

    /// The workspace and tab index of the first tab whose public id is `tab_id`.
    pub fn parse_tab_id(&self, tab_id: &String) -> (r: Option<(usize, usize)>)
        ensures
            r matches Some(p) ==> self.tab_lookup(tab_id@) == Some((p.0 as int, p.1 as int)),
            r is None ==> self.tab_lookup(tab_id@) is None,
    {
        let n = self.state.workspaces.len();
        let mut w: usize = 0;
        while w < n
            invariant
                n == self.state.workspaces@.len(),
                w <= n,
                forall|v: int, u: int|
                    #![trigger self.tab_id(v, u)]
                    self.has_tab(v, u) && v < w ==> self.tab_id(v, u) != tab_id@,
            decreases n - w,
        {
            let ws = &self.state.workspaces[w];
            let m = ws.tabs.len();
            let mut t: usize = 0;
            while t < m
                invariant
                    n == self.state.workspaces@.len(),
                    w < n,
                    *ws == self.state.workspaces@[w as int],
                    m == self.tab_count(w as int),
                    t <= m,
                    forall|v: int, u: int|
                        #![trigger self.tab_id(v, u)]
                        self.has_tab(v, u) && (v < w || (v == w && u < t)) ==> self.tab_id(v, u)
                            != tab_id@,
                decreases m - t,
            {
                if ws.tabs[t].id == *tab_id {
                    assert(self.first_tab_with_id(tab_id@, w as int, t as int));
                    proof {
                        let (cw, ct) = choose|cw: int, ct: int|
                            self.first_tab_with_id(tab_id@, cw, ct);
                        assert(self.tab_id(cw, ct) == tab_id@);
                        assert(cw == w && ct == t);
                    }
                    return Some((w, t));
                }
                t = t + 1;
            }
            w = w + 1;
        }
        assert(!exists|v: int, u: int| self.first_tab_with_id(tab_id@, v, u));
        None
    }

    /// What the API reports about tab `tab_idx` of workspace `ws_idx`, if it exists.
    pub fn tab_info(&self, ws_idx: usize, tab_idx: usize) -> (r: Option<TabInfo>)
        ensures
            r is Some <==> self.has_tab(ws_idx as int, tab_idx as int),
            r matches Some(info) ==> info@ == self.tab_view(ws_idx as int, tab_idx as int),
    {
        if ws_idx >= self.state.workspaces.len() {
            return None;
        }
        let ws = &self.state.workspaces[ws_idx];
        if tab_idx >= ws.tabs.len() {
            return None;
        }
        let tab = &ws.tabs[tab_idx];
        let label = match &tab.custom_name {
            Some(name) => Some(name.clone()),
            None => None,
        };
        let focused = match self.state.active {
            Some(a) => a == ws_idx && ws.active_tab == tab_idx,
            None => false,
        };
        Some(TabInfo { tab_id: tab.id.clone(), workspace_id: ws.id.clone(), label, focused })
    }

    /// The public id of tab `tab_idx` of workspace `ws_idx`, if it exists.
    pub fn public_tab_id(&self, ws_idx: usize, tab_idx: usize) -> (r: Option<String>)
        ensures
            r is Some <==> self.has_tab(ws_idx as int, tab_idx as int),
            r matches Some(id) ==> id@ == self.tab_id(ws_idx as int, tab_idx as int),
    {
        if ws_idx >= self.state.workspaces.len() {
            return None;
        }
        let ws = &self.state.workspaces[ws_idx];
        if tab_idx >= ws.tabs.len() {
            return None;
        }
        Some(ws.tabs[tab_idx].id.clone())
    }
    /// The answer to `tab.list` for request `id`: the tabs of the named workspace, or of all
    /// workspaces in order when none is named, or an error when the named one does not exist.
    pub open spec fn tab_list_response(self, id: Seq<char>, workspace_id: Option<Seq<char>>) -> ResponseView {
        match workspace_id {
            Some(wid) => match self.workspace_lookup(wid) {
                Some(w) => ResponseView::Success {
                    id,
                    result: ResultView::TabList { tabs: self.workspace_tab_views(w, self.tab_count(w)) },
                },
                None => not_found_view(id, "workspace_not_found"@, "workspace "@, wid),
            },
            None => ResponseView::Success {
                id,
                result: ResultView::TabList {
                    tabs: self.all_tab_views(self.state.workspaces@.len() as int),
                },
            },
        }
    }

    /// The answer to `tab.get` for request `id`: the named tab, or an error when it does not exist.
    pub open spec fn tab_get_response(self, id: Seq<char>, tab_id: Seq<char>) -> ResponseView {
        match self.tab_lookup(tab_id) {
            Some((w, t)) => ResponseView::Success {
                id,
                result: ResultView::TabInfo { tab: self.tab_view(w, t) },
            },
            None => not_found_view(id, "tab_not_found"@, "tab "@, tab_id),
        }
    }

    /// The answer to `tab.focus` for request `id`: the named tab when it already has focus,
    /// the multi-tab refusal for any other existing tab, an error when it does not exist.
    pub open spec fn tab_focus_response(self, id: Seq<char>, tab_id: Seq<char>) -> ResponseView {
        match self.tab_lookup(tab_id) {
            Some((w, t)) => if self.is_current_active_tab(w, t) {
                ResponseView::Success { id, result: ResultView::TabInfo { tab: self.tab_view(w, t) } }
            } else {
                multi_tab_unsupported_view(id)
            },
            None => not_found_view(id, "tab_not_found"@, "tab "@, tab_id),
        }
    }

    /// The reports about the tabs of workspace `ws_idx`, in order; none when it does not exist.
    pub fn tab_list_info(&self, ws_idx: usize) -> (r: Vec<TabInfo>)
        ensures
            tab_views(r@) == if ws_idx < self.state.workspaces@.len() {
                self.workspace_tab_views(ws_idx as int, self.tab_count(ws_idx as int))
            } else {
                Seq::empty()
            },
    {
        let mut tabs: Vec<TabInfo> = Vec::new();
        if ws_idx >= self.state.workspaces.len() {
            assert(tab_views(tabs@) =~= Seq::<TabInfoView>::empty());
            return tabs;
        }
        let m = self.state.workspaces[ws_idx].tabs.len();
        let mut t: usize = 0;
        while t < m
            invariant
                ws_idx < self.state.workspaces@.len(),
                m == self.tab_count(ws_idx as int),
                t <= m,
                tab_views(tabs@) =~= self.workspace_tab_views(ws_idx as int, t as int),
            decreases m - t,
        {
            let ghost before = tabs@;
            if let Some(tab) = self.tab_info(ws_idx, t) {
                tabs.push(tab);
                assert(tab_views(tabs@) =~= tab_views(before).push(tab@));
            }
            assert(self.workspace_tab_views(ws_idx as int, t + 1) =~= self.workspace_tab_views(
                ws_idx as int,
                t as int,
            ).push(self.tab_view(ws_idx as int, t as int)));
            t = t + 1;
        }
        tabs
    }

    /// Answer `tab.list`; the state is left as it is.
    pub fn handle_tab_list(&mut self, id: String, params: TabListParams) -> (r: Response)
        ensures
            *final(self) == *old(self),
            r@ == old(self).tab_list_response(id@, opt_str_view(params.workspace_id)),
    {
        let tabs = match params.workspace_id {
            Some(workspace_id) => {
                let ws_idx = match self.parse_workspace_id(&workspace_id) {
                    Some(ws_idx) => ws_idx,
                    None => return workspace_not_found(id, workspace_id.as_str()),
                };
                if ws_idx >= self.state.workspaces.len() {
                    return workspace_not_found(id, workspace_id.as_str());
                }
                self.tab_list_info(ws_idx)
            },
            None => {
                let mut tabs: Vec<TabInfo> = Vec::new();
                let n = self.state.workspaces.len();
                let mut w: usize = 0;
                while w < n
                    invariant
                        n == self.state.workspaces@.len(),
                        w <= n,
                        tab_views(tabs@) =~= self.all_tab_views(w as int),
                    decreases n - w,
                {
                    let m = self.state.workspaces[w].tabs.len();
                    let mut t: usize = 0;
                    while t < m
                        invariant
                            n == self.state.workspaces@.len(),
                            w < n,
                            m == self.tab_count(w as int),
                            t <= m,
                            tab_views(tabs@) =~= self.all_tab_views(w as int)
                                + self.workspace_tab_views(w as int, t as int),
                        decreases m - t,
                    {
                        let ghost before = tabs@;
                        if let Some(tab) = self.tab_info(w, t) {
                            tabs.push(tab);
                            assert(tab_views(tabs@) =~= tab_views(before).push(tab@));
                        }
                        assert(self.workspace_tab_views(w as int, t + 1) =~= self.workspace_tab_views(
                            w as int,
                            t as int,
                        ).push(self.tab_view(w as int, t as int)));
                        t = t + 1;
                    }
                    w = w + 1;
                }
                tabs
            },
        };
        encode_success(id, ResponseResult::TabList { tabs })
    }

    /// Answer `tab.get`; the state is left as it is.
    pub fn handle_tab_get(&mut self, id: String, target: TabTarget) -> (r: Response)
        ensures
            *final(self) == *old(self),
            r@ == old(self).tab_get_response(id@, target.tab_id@),
    {
        let (ws_idx, tab_idx) = match self.parse_tab_id(&target.tab_id) {
            Some(found) => found,
            None => return tab_not_found(id, target.tab_id.as_str()),
        };
        let tab = match self.tab_info(ws_idx, tab_idx) {
            Some(tab) => tab,
            None => return tab_not_found(id, target.tab_id.as_str()),
        };
        encode_success(id, ResponseResult::TabInfo { tab })
    }

    /// Refuse `tab.create`: workspaces take the place of tabs. The state is left as it is.
    pub fn handle_tab_create(&mut self, id: String, params: TabCreateParams) -> (r: Response)
        ensures
            *final(self) == *old(self),
            r@ == multi_tab_unsupported_view(id@),
    {
        multi_tab_unsupported(id)
    }

    /// Answer `tab.focus`: only the tab that already has focus can be focused, and nothing
    /// switches. The state is left as it is.
    pub fn handle_tab_focus(&mut self, id: String, target: TabTarget) -> (r: Response)
        ensures
            *final(self) == *old(self),
            r@ == old(self).tab_focus_response(id@, target.tab_id@),
    {
        let (ws_idx, tab_idx) = match self.parse_tab_id(&target.tab_id) {
            Some(found) => found,
            None => return tab_not_found(id, target.tab_id.as_str()),
        };
        let tab = match self.tab_info(ws_idx, tab_idx) {
            Some(tab) => tab,
            None => return tab_not_found(id, target.tab_id.as_str()),
        };
        let is_current_active_tab = match self.state.active {
            Some(active) => active == ws_idx && ws_idx < self.state.workspaces.len()
                && self.state.workspaces[ws_idx].active_tab_index() == tab_idx,
            None => false,
        };
        if !is_current_active_tab {
            return multi_tab_unsupported(id);
        }
        encode_success(id, ResponseResult::TabInfo { tab })
    }

    /// Refuse `tab.rename`. The state is left as it is.
    pub fn handle_tab_rename(&mut self, id: String, params: TabRenameParams) -> (r: Response)
        ensures
            *final(self) == *old(self),
            r@ == multi_tab_unsupported_view(id@),
    {
        multi_tab_unsupported(id)
    }

    /// Refuse `tab.move`. The state is left as it is.
    pub fn handle_tab_move(&mut self, id: String, params: TabMoveParams) -> (r: Response)
        ensures
            *final(self) == *old(self),
            r@ == multi_tab_unsupported_view(id@),
    {
        multi_tab_unsupported(id)
    }

    /// Refuse `tab.close`. The state is left as it is.
    pub fn handle_tab_close(&mut self, id: String, target: TabTarget) -> (r: Response)
        ensures
            *final(self) == *old(self),
            r@ == multi_tab_unsupported_view(id@),
    {
        multi_tab_unsupported(id)
    }
}

/// The error `code` with message `prefix`, `name`, " not found" for request `id`.
pub open spec fn not_found_view(id: Seq<char>, code: Seq<char>, prefix: Seq<char>, name: Seq<char>) -> ResponseView {
    ResponseView::Error { id, code, message: prefix + name + " not found"@ }
}

/// The multi-tab refusal for request `id`.
pub open spec fn multi_tab_unsupported_view(id: Seq<char>) -> ResponseView {
    ResponseView::Error {
        id,
        code: "multi_tab_unsupported"@,
        message: MULTI_TAB_UNSUPPORTED_MESSAGE@,
    }
}

} // verus!
