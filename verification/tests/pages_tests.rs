use dbmod_tui3::menu::{Property, ViewerUpdater};
use dbmod_tui3::pages::{
    reloadables, resolve_vibe, set_app_state, set_history, vec_str_to_vec_string,
};
use dbmod_tui3::str_map::StrMap;
use dbmod_tui3::Tables;

#[test]
fn vec_str_to_vec_string_copies() {
    assert_eq!(
        vec_str_to_vec_string(vec!["a", "bc"]),
        vec!["a".to_string(), "bc".to_string()]
    );
    assert_eq!(vec_str_to_vec_string(vec![]), Vec::<String>::new());
}

#[test]
fn app_state_has_both_pages() {
    let app = set_app_state();
    let home = app.state.get("homepage").unwrap();
    assert_eq!(home.viewer_updater, ViewerUpdater::Homepage);
    assert_eq!(home.statelets[0].name, "rebuild");
    let reb = app.state.get("rebuild").unwrap();
    assert_eq!(reb.viewer_updater, ViewerUpdater::Rebuild);
    assert_eq!(reb.statelets.len(), 3);
    match &reb.statelets[0].property {
        Property::List(s) => {
            assert_eq!(s.list, vec!["one", "two", "three", "four", "five"]);
            assert_eq!(s.chosen, "");
        },
        other => panic!("{:?}", other),
    }
}

#[test]
fn history_leads_back() {
    let h = set_history();
    assert_eq!(h.get("rebuild"), Some(&"homepage".to_string()));
    assert_eq!(h.get("view"), Some(&"homepage".to_string()));
    assert_eq!(h.get("list of files"), Some(&"rebuild".to_string()));
    assert_eq!(h.get("insert rows in table"), Some(&"rebuild".to_string()));
    assert_eq!(h.get("are you sure you want to rebuild?"), Some(&"rebuild".to_string()));
    assert_eq!(h.get("homepage"), Some(&"homepage".to_string()));
    let app = set_app_state();
    for k in h.keys() {
        assert!(app.state.get(h.get(&k).unwrap()).is_some());
    }
}

#[test]
fn resolve_vibe_cases() {
    let h = set_history();
    assert_eq!(resolve_vibe("rebuild".to_string(), &"homepage".to_string(), &h), Some("rebuild".to_string()));
    assert_eq!(resolve_vibe("\t".to_string(), &"rebuild".to_string(), &h), Some("homepage".to_string()));
    let empty: StrMap<String> = StrMap::new();
    assert_eq!(resolve_vibe("\t".to_string(), &"rebuild".to_string(), &empty), None);
}

#[test]
fn reloadables_lists_the_tables() {
    let mut t: Tables = StrMap::new();
    t.insert("users".to_string(), "CREATE TABLE users ();".to_string());
    t.insert("posts".to_string(), "CREATE TABLE posts ();".to_string());
    let app = reloadables(set_app_state(), &t);
    let reb = app.state.get("rebuild").unwrap();
    assert_eq!(reb.statelets[0].name, "list of files");
    match &reb.statelets[0].property {
        Property::List(s) => {
            let mut l = s.list.clone();
            l.sort();
            assert_eq!(l, vec!["posts", "users"]);
            assert_eq!(s.chosen, "");
        },
        other => panic!("{:?}", other),
    }
    assert_eq!(app.state.get("homepage").unwrap().statelets.len(), 2);
}
