use dbmod_tui3::menu::{
    basic_immediate, get_files, homepage_viewer_updater, rebuild_viewer_updater, report_rebuild,
    FileOperator, ImmediateOutcome, Package, Property, Special, Statelet, ViewStep, ViewerUpdater,
};
use dbmod_tui3::pages::{set_homepage, set_rebuild};
use dbmod_tui3::screen::Screen;

fn shown(v: ViewStep) -> String {
    match v {
        ViewStep::Shown(s) => s.s,
        other => panic!("{:?}", other),
    }
}

fn chosen(p: &Property) -> String {
    match p {
        Property::List(s) => s.chosen.clone(),
        other => panic!("{:?}", other),
    }
}

#[test]
fn property_queries() {
    assert!(Property::Togglable(true).is_toggled_bool());
    assert!(!Property::Togglable(false).is_toggled_bool());
    assert!(!Property::Action(true).is_toggled_bool());
    assert_eq!(Property::Togglable(true).is_toggled(), "\tX");
    assert_eq!(Property::Togglable(false).is_toggled(), "");
    assert_eq!(Property::Selectable.is_toggled(), "");
    assert_eq!(Property::Action(true).is_selectable(), Some(true));
    assert_eq!(Property::Action(false).is_selectable(), Some(false));
    assert_eq!(Property::Selectable.is_selectable(), None);
}

#[test]
fn constructors_keep_fields() {
    let s = Statelet::new("x", Property::Selectable);
    assert_eq!(s.name, "x");
    let sp = Special::new(vec!["a".to_string()], FileOperator::GetFiles, "a".to_string());
    assert_eq!(sp.list, vec!["a".to_string()]);
    assert_eq!(sp.chosen, "a");
    let p = Package::new(vec![s], ViewerUpdater::Homepage);
    assert_eq!(p.statelets.len(), 1);
    assert_eq!(p.viewer_updater, ViewerUpdater::Homepage);
    assert_eq!(get_files(&vec![]), Ok(()));
}

#[test]
fn homepage_drawing() {
    let home = set_homepage();
    let mut screen = Screen::new();
    screen._concat("top");
    let s = homepage_viewer_updater(screen, &home.statelets);
    assert_eq!(s.s, "top\n0) -> rebuild\n1) -> view");
    let mut statelets = home.statelets;
    statelets[1].property = Property::Togglable(true);
    let s = homepage_viewer_updater(Screen::new(), &statelets);
    assert_eq!(s.s, "\n0) -> rebuild\n1) -> view\tX");
}

#[test]
fn rebuild_drawing() {
    let reb = set_rebuild();
    let s = shown(rebuild_viewer_updater(Screen::new(), &reb.statelets));
    assert_eq!(
        s,
        "Chosen file: ||\n\n\n0) -> list of files\n1) -> insert rows in table\n2) -> are you sure you want to rebuild?"
    );
}

#[test]
fn rebuild_request_when_action_fired() {
    let mut statelets = set_rebuild().statelets;
    statelets[0].property = Property::List(Special::new(
        vec!["users".to_string()],
        FileOperator::GetFiles,
        "users".to_string(),
    ));
    statelets[1].property = Property::Togglable(true);
    statelets[2].property = Property::Action(true);
    match rebuild_viewer_updater(Screen::new(), &statelets) {
        ViewStep::Rebuild { screen, table, insert_rows } => {
            assert_eq!(screen.s, "");
            assert_eq!(table, "users");
            assert!(insert_rows);
        },
        other => panic!("{:?}", other),
    }
    let s = report_rebuild(Screen::new(), &"users".to_string());
    assert_eq!(s.s, "\n\nTable: |users| has been successfully updated...!\n\n");
}

#[test]
fn toggle_twice_restores() {
    let home = set_homepage();
    let (mut im, first) = basic_immediate(home.statelets, home.viewer_updater);
    assert_eq!(shown(first), "\n0) -> rebuild\n1) -> view");
    assert!(matches!(im.main_input(Ok("1".to_string())), ImmediateOutcome::Continue));
    assert_eq!(shown(im.redraw()), "\n0) -> rebuild\n1) -> view\tX");
    assert!(matches!(im.main_input(Ok("1".to_string())), ImmediateOutcome::Continue));
    assert_eq!(shown(im.redraw()), "\n0) -> rebuild\n1) -> view");
}

#[test]
fn selectable_entry_leaves() {
    let home = set_homepage();
    let (mut im, _) = basic_immediate(home.statelets, home.viewer_updater);
    match im.main_input(Ok("0".to_string())) {
        ImmediateOutcome::Leave(s) => assert_eq!(s, "rebuild"),
        other => panic!("{:?}", other),
    }
    let p = im.into_package();
    assert_eq!(p.statelets.len(), 2);
}

#[test]
fn tab_leaves_and_errors_are_shown() {
    let home = set_homepage();
    let (mut im, _) = basic_immediate(home.statelets, home.viewer_updater);
    assert!(matches!(im.main_input(Ok("7".to_string())), ImmediateOutcome::Continue));
    assert_eq!(im.screen().s, "Err: Input is not valid\n\n");
    assert_eq!(shown(im.redraw()), "Err: Input is not valid\n\n\n0) -> rebuild\n1) -> view");
    assert_eq!(im.screen().s, "");
    match im.main_input(Ok("\t".to_string())) {
        ImmediateOutcome::Leave(s) => assert_eq!(s, "\t"),
        other => panic!("{:?}", other),
    }
}

#[test]
fn list_choice() {
    let reb = set_rebuild();
    let (mut im, _) = basic_immediate(reb.statelets, reb.viewer_updater);
    assert!(im.is_drawable());
    assert!(matches!(im.main_input(Ok("0".to_string())), ImmediateOutcome::ShowList(0)));
    assert_eq!(
        im.screen().s,
        "0): |one|\n1): |two|\n2): |three|\n3): |four|\n4): |five|\n\nThe Chosen File is: -> ||\n"
    );
    im.clear_screen();
    im.list_input(0, Ok("3".to_string()));
    im.list_input(0, Ok("9".to_string()));
    assert_eq!(im.screen().s, "Err: Input is not valid\n\n");
    im.list_input(0, Ok("\t".to_string()));
    assert_eq!(im.screen().s, "Err: Input is not valid\n\n");
    let p = im.into_package();
    assert_eq!(chosen(&p.statelets[0].property), "four");
}

#[test]
fn action_fires_then_resets() {
    let reb = set_rebuild();
    let (mut im, _) = basic_immediate(reb.statelets, reb.viewer_updater);
    im.main_input(Ok("0".to_string()));
    im.clear_screen();
    im.list_input(0, Ok("1".to_string()));
    im.main_input(Ok("1".to_string()));
    assert!(matches!(im.main_input(Ok("2".to_string())), ImmediateOutcome::ActionFired));
    match im.fresh_view() {
        ViewStep::Rebuild { table, insert_rows, .. } => {
            assert_eq!(table, "two");
            assert!(insert_rows);
        },
        other => panic!("{:?}", other),
    }
    im.reset_actions();
    let s = shown(im.fresh_view());
    assert!(s.ends_with("2) -> are you sure you want to rebuild?"));
    let p = im.into_package();
    assert!(matches!(p.statelets[2].property, Property::Action(false)));
}
