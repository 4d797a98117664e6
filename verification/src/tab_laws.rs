//! Properties of the tab requests that relate lookups, listings and answers.
use vstd::prelude::*;
use crate::responses::{
    opt_str_view, ResponseView, ResultView, TabInfoView, MULTI_TAB_UNSUPPORTED_MESSAGE,
};
use crate::tabs::{multi_tab_unsupported_view, App};

verus! {

/// Whether no two workspaces share a public id and no two tabs share a public id.
pub open spec fn ids_unique(app: App) -> bool {
    &&& forall|v: int, w: int|
        0 <= v < app.state.workspaces@.len() && 0 <= w < app.state.workspaces@.len() && v != w
            ==> #[trigger] app.ws_id(v) != #[trigger] app.ws_id(w)
    &&& forall|v: int, u: int, w: int, t: int|
        app.has_tab(v, u) && app.has_tab(w, t) && (v != w || u != t) ==> #[trigger] app.tab_id(v, u)
            != #[trigger] app.tab_id(w, t)
}

/// With unique ids, looking up a tab's public id finds that tab.
pub proof fn lemma_tab_id_lookup_round_trip(app: App, w: int, t: int)
    requires
        ids_unique(app),
        app.has_tab(w, t),
    ensures
        app.tab_lookup(app.tab_id(w, t)) == Some((w, t)),
{
    let id = app.tab_id(w, t);
    assert(app.first_tab_with_id(id, w, t));
    let (cw, ct) = choose|cw: int, ct: int| app.first_tab_with_id(id, cw, ct);
    assert(app.tab_id(cw, ct) == id);
}

/// With unique ids, looking up a workspace's public id finds that workspace.
pub proof fn lemma_workspace_id_lookup_round_trip(app: App, w: int)
    requires
        ids_unique(app),
        0 <= w < app.state.workspaces@.len(),
    ensures
        app.workspace_lookup(app.ws_id(w)) == Some(w),
{
    let id = app.ws_id(w);
    assert(app.first_workspace_with_id(id, w));
    let c = choose|c: int| app.first_workspace_with_id(id, c);
    assert(app.ws_id(c) == id);
}

/// Any tab that a lookup finds exists and carries the id looked up.
pub proof fn lemma_tab_lookup_sound(app: App, id: Seq<char>)
    ensures
        app.tab_lookup(id) matches Some((w, t)) ==> app.has_tab(w, t) && app.tab_id(w, t) == id,
        app.tab_lookup(id) is None ==> forall|w: int, t: int|
            app.has_tab(w, t) ==> #[trigger] app.tab_id(w, t) != id,
{
    if app.tab_lookup(id) is None {
        assert forall|w: int, t: int| app.has_tab(w, t) implies #[trigger] app.tab_id(w, t) != id by {
            if app.tab_id(w, t) == id {
                lemma_some_first_tab(app, id, w, t);
            }
        }
    }
}

/// If some tab has public id `id`, a first such tab exists.
proof fn lemma_some_first_tab(app: App, id: Seq<char>, w: int, t: int)
    requires
        app.has_tab(w, t),
        app.tab_id(w, t) == id,
    ensures
        exists|v: int, u: int| app.first_tab_with_id(id, v, u),
    decreases w, t,
{
    if !app.first_tab_with_id(id, w, t) {
        let (v, u) = choose|v: int, u: int|
            #![trigger app.tab_id(v, u)]
            app.has_tab(v, u) && (v < w || (v == w && u < t)) && app.tab_id(v, u) == id;
        lemma_some_first_tab(app, id, v, u);
    }
}

/// Focusing succeeds exactly for the tab that already has focus, and reports it focused;
/// any other existing tab is refused as a multi-tab mutation.
pub proof fn lemma_focus_only_confirms_current_tab(app: App, id: Seq<char>, tab_id: Seq<char>)
    ensures
        app.tab_focus_response(id, tab_id) is Success <==> (app.tab_lookup(tab_id) matches Some(
            (w, t),
        ) && app.is_current_active_tab(w, t)),
        app.tab_focus_response(id, tab_id) matches ResponseView::Success {
            result: ResultView::TabInfo { tab },
            ..
        } ==> tab.focused,
        app.tab_lookup(tab_id) matches Some((w, t)) && !app.is_current_active_tab(w, t)
            ==> app.tab_focus_response(id, tab_id) == multi_tab_unsupported_view(id),
{
}

/// Focus and get agree on existing tabs: a successful focus answers what get answers.
pub proof fn lemma_focus_answers_like_get(app: App, id: Seq<char>, tab_id: Seq<char>)
    ensures
        app.tab_focus_response(id, tab_id) is Success ==> app.tab_focus_response(id, tab_id)
            == app.tab_get_response(id, tab_id),
        app.tab_lookup(tab_id) is None ==> app.tab_focus_response(id, tab_id)
            == app.tab_get_response(id, tab_id),
{
}

/// The number of tabs in the first `n` workspaces.
pub open spec fn tabs_before(app: App, n: int) -> int
    decreases n,
{
    if n <= 0 {
        0
    } else {
        tabs_before(app, n - 1) + app.tab_count(n - 1)
    }
}

/// The listing of all tabs holds every tab once, workspace by workspace: tab `t` of
/// workspace `w` is reported at position `tabs_before(w) + t`.
pub proof fn lemma_full_listing_holds_every_tab(app: App, n: int, w: int, t: int)
    requires
        0 <= w < n <= app.state.workspaces@.len(),
        0 <= t < app.tab_count(w),
    ensures
        app.all_tab_views(n).len() == tabs_before(app, n),
        app.all_tab_views(n)[tabs_before(app, w) + t] == app.tab_view(w, t),
    decreases n,
{
    lemma_full_listing_len(app, n);
    lemma_full_listing_len(app, n - 1);
    lemma_tabs_before_mono(app, 0, w);
    let prev = app.all_tab_views(n - 1);
    let last = app.workspace_tab_views(n - 1, app.tab_count(n - 1));
    assert(app.all_tab_views(n) == prev + last);
    if w < n - 1 {
        lemma_full_listing_holds_every_tab(app, n - 1, w, t);
        lemma_tabs_before_mono(app, w + 1, n - 1);
        assert(tabs_before(app, w + 1) == tabs_before(app, w) + app.tab_count(w));
        let i = tabs_before(app, w) + t;
        assert(i < prev.len());
        assert((prev + last)[i] == prev[i]);
    } else {
        let i = tabs_before(app, w) + t;
        assert(i == prev.len() + t);
        assert((prev + last)[i] == last[t]);
        assert(last[t] == app.tab_view(w, t));
    }
}

/// The listing of all tabs of the first `n` workspaces has one entry per tab.
pub proof fn lemma_full_listing_len(app: App, n: int)
    requires
        n <= app.state.workspaces@.len(),
    ensures
        app.all_tab_views(n).len() == tabs_before(app, n),
    decreases n,
{
    if n > 0 {
        lemma_full_listing_len(app, n - 1);
        assert(app.tab_count(n - 1) >= 0);
    }
}

/// Listing one workspace gives exactly its part of the listing of all workspaces.
pub proof fn lemma_workspace_listing_is_part_of_full_listing(app: App, id: Seq<char>, w: int)
    requires
        app.workspace_lookup(id) == Some(w),
    ensures
        app.tab_list_response(id, Some(app.ws_id(w))) is Success,
        ({
            let all = app.all_tab_views(app.state.workspaces@.len() as int);
            let start = tabs_before(app, w);
            let part = all.subrange(start, start + app.tab_count(w));
            part == app.workspace_tab_views(w, app.tab_count(w))
        }),
{
    let n = app.state.workspaces@.len() as int;
    assert(0 <= w < n);
    lemma_workspace_lookup_of_own_id(app, id, w);
    lemma_full_listing_len(app, n);
    let all = app.all_tab_views(n);
    let start = tabs_before(app, w);
    let c = app.tab_count(w);
    lemma_tabs_before_mono(app, w + 1, n);
    lemma_tabs_before_mono(app, 0, w);
    assert(tabs_before(app, w + 1) == start + c);
    assert forall|t: int| 0 <= t < c implies #[trigger] all.subrange(start, start + c)[t]
        == app.workspace_tab_views(w, c)[t] by {
        lemma_full_listing_holds_every_tab(app, n, w, t);
    }
    assert(all.subrange(start, start + app.tab_count(w)) =~= app.workspace_tab_views(
        w,
        app.tab_count(w),
    ));
}

/// The first workspace found for `id` carries `id`, so a lookup of its own id finds it.
proof fn lemma_workspace_lookup_of_own_id(app: App, id: Seq<char>, w: int)
    requires
        app.workspace_lookup(id) == Some(w),
    ensures
        app.ws_id(w) == id,
        app.workspace_lookup(app.ws_id(w)) == Some(w),
{
}

/// Earlier workspaces hold no more tabs than later prefixes.
proof fn lemma_tabs_before_mono(app: App, a: int, b: int)
    requires
        0 <= a <= b <= app.state.workspaces@.len(),
    ensures
        tabs_before(app, a) <= tabs_before(app, b),
    decreases b - a,
{
    if a < b {
        lemma_tabs_before_mono(app, a, b - 1);
        assert(app.tab_count(b - 1) >= 0);
    }
}

/// Listing a named workspace reports each of its tabs, in order: its public id, the
/// workspace's id, its custom name as label, and whether it is the active tab of the
/// focused workspace. `w` is the first workspace with the given id.
pub proof fn lemma_named_listing_reports_each_tab(app: App, id: Seq<char>, wid: Seq<char>, w: int)
    requires
        0 <= w < app.state.workspaces@.len(),
        app.state.workspaces@[w].id@ == wid,
        forall|v: int| 0 <= v < w ==> app.state.workspaces@[v].id@ != wid,
    ensures
        app.tab_list_response(id, Some(wid)) matches ResponseView::Success {
            id: rid,
            result: ResultView::TabList { tabs },
        } && rid == id && tabs.len() == app.state.workspaces@[w].tabs@.len() && forall|t: int|
            0 <= t < tabs.len() ==> #[trigger] tabs[t] == (TabInfoView {
                tab_id: app.state.workspaces@[w].tabs@[t].id@,
                workspace_id: app.state.workspaces@[w].id@,
                label: opt_str_view(app.state.workspaces@[w].tabs@[t].custom_name),
                focused: app.state.active == Some(w as usize)
                    && app.state.workspaces@[w].active_tab == t,
            }),
{
    assert(app.first_workspace_with_id(wid, w));
    let c = choose|c: int| app.first_workspace_with_id(wid, c);
    assert(app.ws_id(c) == wid);
    assert(c == w);
}

/// `tab.get` reports every existing tab, whatever workspace has focus: for the first tab
/// `(w, t)` with the given id it answers that tab's id, workspace id, label and focus.
pub proof fn lemma_get_reports_existing_tab(app: App, id: Seq<char>, tab_id: Seq<char>, w: int, t: int)
    requires
        0 <= w < app.state.workspaces@.len(),
        0 <= t < app.state.workspaces@[w].tabs@.len(),
        app.state.workspaces@[w].tabs@[t].id@ == tab_id,
        forall|v: int, u: int|
            0 <= v < app.state.workspaces@.len() && 0 <= u < app.state.workspaces@[v].tabs@.len()
                && (v < w || (v == w && u < t)) ==> #[trigger] app.state.workspaces@[v].tabs@[u].id@
                != tab_id,
    ensures
        app.tab_get_response(id, tab_id) == (ResponseView::Success {
            id,
            result: ResultView::TabInfo {
                tab: TabInfoView {
                    tab_id,
                    workspace_id: app.state.workspaces@[w].id@,
                    label: opt_str_view(app.state.workspaces@[w].tabs@[t].custom_name),
                    focused: app.state.active == Some(w as usize)
                        && app.state.workspaces@[w].active_tab == t,
                },
            },
        }),
{
    assert forall|v: int, u: int|
        #![trigger app.tab_id(v, u)]
        app.has_tab(v, u) && (v < w || (v == w && u < t)) implies app.tab_id(v, u) != tab_id by {
        assert(app.state.workspaces@[v].tabs@[u].id@ != tab_id);
    }
    assert(app.first_tab_with_id(tab_id, w, t));
    let (cw, ct) = choose|cw: int, ct: int| app.first_tab_with_id(tab_id, cw, ct);
    assert(app.tab_id(cw, ct) == tab_id);
    assert(cw == w && ct == t);
}

/// `tab.get` succeeds exactly when some tab has the id, and then reports a tab with that
/// id; otherwise it answers `tab_not_found`.
pub proof fn lemma_get_succeeds_iff_tab_exists(app: App, id: Seq<char>, tab_id: Seq<char>)
    ensures
        (exists|w: int, t: int| app.has_tab(w, t) && #[trigger] app.tab_id(w, t) == tab_id)
            ==> (app.tab_get_response(id, tab_id) matches ResponseView::Success {
            id: rid,
            result: ResultView::TabInfo { tab },
        } && rid == id && tab.tab_id == tab_id),
        !(exists|w: int, t: int| app.has_tab(w, t) && #[trigger] app.tab_id(w, t) == tab_id)
            ==> app.tab_get_response(id, tab_id) == (ResponseView::Error {
            id,
            code: "tab_not_found"@,
            message: "tab "@ + tab_id + " not found"@,
        }),
{
    if exists|w: int, t: int| app.has_tab(w, t) && #[trigger] app.tab_id(w, t) == tab_id {
        let (w, t) = choose|w: int, t: int| app.has_tab(w, t) && #[trigger] app.tab_id(w, t) == tab_id;
        lemma_some_first_tab(app, tab_id, w, t);
        let (cw, ct) = choose|cw: int, ct: int| app.first_tab_with_id(tab_id, cw, ct);
        assert(app.first_tab_with_id(tab_id, cw, ct));
    } else {
        if app.tab_lookup(tab_id) is Some {
            let (cw, ct) = choose|cw: int, ct: int| app.first_tab_with_id(tab_id, cw, ct);
            assert(app.has_tab(cw, ct) && app.tab_id(cw, ct) == tab_id);
        }
    }
}

/// `tab.focus` on the first tab `(w, t)` with the given id confirms that tab, reporting
/// it, when it is the active tab of the focused workspace, and refuses any other tab with
/// the multi-tab error; nothing switches either way.
pub proof fn lemma_focus_confirms_only_current_tab(
    app: App,
    id: Seq<char>,
    tab_id: Seq<char>,
    w: int,
    t: int,
)
    requires
        0 <= w < app.state.workspaces@.len(),
        0 <= t < app.state.workspaces@[w].tabs@.len(),
        app.state.workspaces@[w].tabs@[t].id@ == tab_id,
        forall|v: int, u: int|
            0 <= v < app.state.workspaces@.len() && 0 <= u < app.state.workspaces@[v].tabs@.len()
                && (v < w || (v == w && u < t)) ==> #[trigger] app.state.workspaces@[v].tabs@[u].id@
                != tab_id,
    ensures
        app.state.active == Some(w as usize) && app.state.workspaces@[w].active_tab == t
            ==> app.tab_focus_response(id, tab_id) == (ResponseView::Success {
            id,
            result: ResultView::TabInfo {
                tab: TabInfoView {
                    tab_id,
                    workspace_id: app.state.workspaces@[w].id@,
                    label: opt_str_view(app.state.workspaces@[w].tabs@[t].custom_name),
                    focused: true,
                },
            },
        }),
        !(app.state.active == Some(w as usize) && app.state.workspaces@[w].active_tab == t)
            ==> app.tab_focus_response(id, tab_id) == (ResponseView::Error {
            id,
            code: "multi_tab_unsupported"@,
            message: MULTI_TAB_UNSUPPORTED_MESSAGE@,
        }),
{
    lemma_get_reports_existing_tab(app, id, tab_id, w, t);
}

/// The listing of all tabs reports tab `t` of workspace `w` at position
/// `tabs_before(w) + t`, with its id, its workspace's id, its label and its focus.
pub proof fn lemma_full_listing_reports_each_tab(app: App, id: Seq<char>, w: int, t: int)
    requires
        0 <= w < app.state.workspaces@.len(),
        0 <= t < app.state.workspaces@[w].tabs@.len(),
    ensures
        app.tab_list_response(id, None) matches ResponseView::Success {
            id: rid,
            result: ResultView::TabList { tabs },
        } && rid == id && tabs.len() == tabs_before(app, app.state.workspaces@.len() as int)
            && tabs[tabs_before(app, w) + t] == (TabInfoView {
            tab_id: app.state.workspaces@[w].tabs@[t].id@,
            workspace_id: app.state.workspaces@[w].id@,
            label: opt_str_view(app.state.workspaces@[w].tabs@[t].custom_name),
            focused: app.state.active == Some(w as usize) && app.state.workspaces@[w].active_tab
                == t,
        }),
{
    lemma_full_listing_holds_every_tab(app, app.state.workspaces@.len() as int, w, t);
}

/// The refusing tab requests answer with the multi-tab error and its fixed message.
pub proof fn lemma_refusal_is_multi_tab_unsupported(id: Seq<char>)
    ensures
        multi_tab_unsupported_view(id) == (ResponseView::Error {
            id,
            code: "multi_tab_unsupported"@,
            message: "multi-tab mutations are not supported; use workspaces instead"@,
        }),
{
}

} // verus!
