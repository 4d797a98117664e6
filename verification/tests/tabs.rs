use herdr::responses::{Response, ResponseResult, MULTI_TAB_UNSUPPORTED_MESSAGE};
use herdr::tabs::{
    App, AppState, EventHub, Tab, TabCreateParams, TabListParams, TabMoveParams, TabRenameParams,
    TabTarget, Workspace,
};

fn test_workspace(id: &str, root_pane: u64) -> Workspace {
    Workspace {
        id: id.to_string(),
        tabs: vec![Tab { id: format!("{id}:t1"), custom_name: None, root_pane }],
        active_tab: 0,
    }
}

fn add_tab(ws: &mut Workspace, label: Option<&str>, root_pane: u64) {
    let number = ws.tabs.len() + 1;
    ws.tabs.push(Tab {
        id: format!("{}:t{}", ws.id, number),
        custom_name: label.map(|l| l.to_string()),
        root_pane,
    });
}

fn app_with_workspace() -> App {
    App {
        state: AppState {
            workspaces: vec![test_workspace("tabs", 1)],
            active: Some(0),
            selected: 0,
            session_dirty: false,
        },
        event_hub: EventHub::new(),
    }
}

fn assert_multi_tab_unsupported(response: &Response) {
    let Response::Error(error) = response else {
        panic!("expected an error response");
    };
    assert_eq!(error.error.code, "multi_tab_unsupported");
    assert_eq!(
        error.error.message,
        "multi-tab mutations are not supported; use workspaces instead"
    );
}

fn assert_error(response: &Response, code: &str, message: &str) {
    let Response::Error(error) = response else {
        panic!("expected an error response");
    };
    assert_eq!(error.id, "req");
    assert_eq!(error.error.code, code);
    assert_eq!(error.error.message, message);
}

#[test]
fn api_tab_create_is_rejected_without_events_or_session_dirty() {
    let mut app = app_with_workspace();

    let response = app.handle_tab_create(
        "req".into(),
        TabCreateParams {
            workspace_id: None,
            cwd: None,
            focus: false,
            label: None,
            env: Default::default(),
        },
    );

    assert_multi_tab_unsupported(&response);
    assert_eq!(app.state.workspaces[0].tabs.len(), 1);
    assert!(!app.state.session_dirty);
    assert!(app.event_hub.events_after(0).is_empty());
}

#[test]
fn api_tab_focus_rejects_legacy_non_active_tab_without_switching() {
    let mut app = app_with_workspace();
    add_tab(&mut app.state.workspaces[0], Some("legacy"), 2);
    app.state.workspaces[0].active_tab = 0;
    let inactive_tab_id = app.public_tab_id(0, 1).unwrap();

    let response = app.handle_tab_focus(
        "req".into(),
        TabTarget {
            tab_id: inactive_tab_id,
        },
    );

    assert_multi_tab_unsupported(&response);
    assert_eq!(app.state.active, Some(0));
    assert_eq!(app.state.workspaces[0].active_tab, 0);
    assert!(!app.state.session_dirty);
    assert!(app.event_hub.events_after(0).is_empty());
}

#[test]
fn api_tab_focus_rejects_background_workspace_tab_without_switching() {
    let mut app = app_with_workspace();
    app.state.workspaces.push(test_workspace("background", 2));
    let background_tab_id = app.public_tab_id(1, 0).unwrap();

    let response = app.handle_tab_focus(
        "req".into(),
        TabTarget {
            tab_id: background_tab_id,
        },
    );

    assert_multi_tab_unsupported(&response);
    assert_eq!(app.state.active, Some(0));
    assert_eq!(app.state.workspaces[1].active_tab, 0);
    assert!(!app.state.session_dirty);
    assert!(app.event_hub.events_after(0).is_empty());
}

#[test]
fn api_tab_focus_current_active_tab_succeeds_without_switching() {
    let mut app = app_with_workspace();
    let active_tab_id = app.public_tab_id(0, 0).unwrap();

    let response = app.handle_tab_focus(
        "req".into(),
        TabTarget {
            tab_id: active_tab_id.clone(),
        },
    );

    let Response::Success(success) = response else {
        panic!("expected a success response");
    };
    let ResponseResult::TabInfo { tab } = success.result else {
        panic!("expected tab info");
    };
    assert_eq!(tab.tab_id, active_tab_id);
    assert_eq!(app.state.active, Some(0));
    assert_eq!(app.state.workspaces[0].active_tab, 0);
    assert!(!app.state.session_dirty);
    assert!(app.event_hub.events_after(0).is_empty());
}

#[test]
fn api_tab_rename_is_rejected_without_events_or_session_dirty() {
    let mut app = app_with_workspace();
    let tab_id = app.public_tab_id(0, 0).unwrap();

    let response = app.handle_tab_rename(
        "req".into(),
        TabRenameParams {
            tab_id,
            label: "renamed".into(),
        },
    );

    assert_multi_tab_unsupported(&response);
    assert!(app.state.workspaces[0].tabs[0].custom_name.is_none());
    assert!(!app.state.session_dirty);
    assert!(app.event_hub.events_after(0).is_empty());
}

#[test]
fn api_tab_move_is_rejected_without_events_or_session_dirty() {
    let mut app = app_with_workspace();
    add_tab(&mut app.state.workspaces[0], Some("legacy"), 2);
    let first_tab = app.state.workspaces[0].tabs[0].root_pane;
    let tab_id = app.public_tab_id(0, 0).unwrap();

    let response = app.handle_tab_move(
        "req".into(),
        TabMoveParams {
            tab_id,
            insert_index: 1,
        },
    );

    assert_multi_tab_unsupported(&response);
    assert_eq!(app.state.workspaces[0].tabs[0].root_pane, first_tab);
    assert!(!app.state.session_dirty);
    assert!(app.event_hub.events_after(0).is_empty());
}

#[test]
fn api_tab_close_is_rejected_without_events_or_session_dirty() {
    let mut app = app_with_workspace();
    let tab_id = app.public_tab_id(0, 0).unwrap();

    let response = app.handle_tab_close("req".into(), TabTarget { tab_id });

    assert_multi_tab_unsupported(&response);
    assert_eq!(app.state.workspaces.len(), 1);
    assert_eq!(app.state.workspaces[0].tabs.len(), 1);
    assert!(!app.state.session_dirty);
    assert!(app.event_hub.events_after(0).is_empty());
}

#[test]
fn multi_tab_message_is_the_documented_one() {
    assert_eq!(
        MULTI_TAB_UNSUPPORTED_MESSAGE,
        "multi-tab mutations are not supported; use workspaces instead"
    );
}

#[test]
fn tab_list_without_workspace_lists_all_tabs_in_order() {
    let mut app = app_with_workspace();
    add_tab(&mut app.state.workspaces[0], Some("legacy"), 2);
    app.state.workspaces.push(test_workspace("background", 3));

    let response = app.handle_tab_list("req".into(), TabListParams { workspace_id: None });

    let Response::Success(success) = response else {
        panic!("expected a success response");
    };
    assert_eq!(success.id, "req");
    let ResponseResult::TabList { tabs } = success.result else {
        panic!("expected a tab list");
    };
    let ids: Vec<&str> = tabs.iter().map(|t| t.tab_id.as_str()).collect();
    assert_eq!(ids, vec!["tabs:t1", "tabs:t2", "background:t1"]);
    assert_eq!(tabs[0].workspace_id, "tabs");
    assert!(tabs[0].focused);
    assert!(!tabs[1].focused);
    assert_eq!(tabs[1].label.as_deref(), Some("legacy"));
    assert!(!tabs[2].focused);
    assert_eq!(tabs[2].workspace_id, "background");
}

#[test]
fn tab_list_of_named_workspace_lists_only_its_tabs() {
    let mut app = app_with_workspace();
    app.state.workspaces.push(test_workspace("background", 3));
    add_tab(&mut app.state.workspaces[1], None, 4);

    let response = app.handle_tab_list(
        "req".into(),
        TabListParams { workspace_id: Some("background".into()) },
    );

    let Response::Success(success) = response else {
        panic!("expected a success response");
    };
    let ResponseResult::TabList { tabs } = success.result else {
        panic!("expected a tab list");
    };
    let ids: Vec<&str> = tabs.iter().map(|t| t.tab_id.as_str()).collect();
    assert_eq!(ids, vec!["background:t1", "background:t2"]);
}

#[test]
fn tab_list_of_unknown_workspace_is_workspace_not_found() {
    let mut app = app_with_workspace();

    let response = app.handle_tab_list(
        "req".into(),
        TabListParams { workspace_id: Some("nope".into()) },
    );

    assert_error(&response, "workspace_not_found", "workspace nope not found");
}

#[test]
fn tab_get_reports_the_named_tab() {
    let mut app = app_with_workspace();
    add_tab(&mut app.state.workspaces[0], Some("legacy"), 2);

    let response = app.handle_tab_get("req".into(), TabTarget { tab_id: "tabs:t2".into() });

    let Response::Success(success) = response else {
        panic!("expected a success response");
    };
    let ResponseResult::TabInfo { tab } = success.result else {
        panic!("expected tab info");
    };
    assert_eq!(tab.tab_id, "tabs:t2");
    assert_eq!(tab.workspace_id, "tabs");
    assert_eq!(tab.label.as_deref(), Some("legacy"));
    assert!(!tab.focused);
}

#[test]
fn tab_get_of_unknown_tab_is_tab_not_found() {
    let mut app = app_with_workspace();

    let response = app.handle_tab_get("req".into(), TabTarget { tab_id: "tabs:t9".into() });

    assert_error(&response, "tab_not_found", "tab tabs:t9 not found");
}

#[test]
fn tab_focus_of_unknown_tab_is_tab_not_found() {
    let mut app = app_with_workspace();

    let response = app.handle_tab_focus("req".into(), TabTarget { tab_id: "x".into() });

    assert_error(&response, "tab_not_found", "tab x not found");
    assert_eq!(app.state.active, Some(0));
}

#[test]
fn tab_lookup_round_trips_public_ids() {
    let mut app = app_with_workspace();
    add_tab(&mut app.state.workspaces[0], None, 2);
    app.state.workspaces.push(test_workspace("background", 3));
    for (w, t) in [(0usize, 0usize), (0, 1), (1, 0)] {
        let id = app.public_tab_id(w, t).unwrap();
        assert_eq!(app.parse_tab_id(&id), Some((w, t)));
    }
    assert_eq!(app.public_tab_id(1, 1), None);
    assert_eq!(app.public_tab_id(2, 0), None);
    assert_eq!(app.parse_workspace_id(&"background".to_string()), Some(1));
    assert_eq!(app.parse_workspace_id(&"missing".to_string()), None);
    assert!(app.tab_info(0, 2).is_none());
    assert_eq!(app.tab_list_info(5).len(), 0);
    assert_eq!(app.tab_list_info(0).len(), 2);
}

#[test]
fn event_hub_reports_only_later_events() {
    let hub = EventHub { events: vec![1, 2, 5, 7] };
    assert_eq!(hub.events_after(2), vec![5, 7]);
    assert_eq!(hub.events_after(0), vec![1, 2, 5, 7]);
    assert!(hub.events_after(7).is_empty());
    assert!(EventHub::new().events_after(0).is_empty());
}
