//! The two pages of the program, the way back from each entry, and the
//! reloading of the list of tables.

use vstd::prelude::*;
use vstd::pervasive::VecAdditionalExecFns;
use crate::handle_files::Tables;
use crate::menu::{
    FileOperator, Package, Property, PropertyView, Special, Statelet, StateletView, ViewerUpdater,
    statelets_view, with_property,
};
use crate::str_map::{StrMap, string_views};

verus! {

/// Copies each `&str` into a `String`, in order.
pub fn vec_str_to_vec_string(vec: Vec<&str>) -> (r: Vec<String>)
    ensures
        string_views(r@) == vec@.map_values(|s: &str| s@),
{
    let mut vec_string: Vec<String> = Vec::new();
    let mut i: usize = 0;
    while i < vec.len()
        invariant
            i <= vec@.len(),
            vec_string@.len() == i,
            forall|j: int| 0 <= j < i ==> #[trigger] vec_string@[j]@ == vec@[j]@,
        decreases vec@.len() - i,
    {
        vec_string.push(vec[i].to_owned());
        i = i + 1;
    }
    assert(string_views(vec_string@) =~= vec@.map_values(|s: &str| s@));
    vec_string
}

/// The texts of a page.
pub struct PackageView {
    pub statelets: Seq<StateletView>,
    pub viewer: ViewerUpdater,
}

impl View for Package {
    type V = PackageView;

    open spec fn view(&self) -> PackageView {
        PackageView { statelets: statelets_view(self.statelets@), viewer: self.viewer_updater }
    }
}

/// The entries of the home page.
pub open spec fn homepage_statelets() -> Seq<StateletView> {
    seq![
        StateletView { name: "rebuild"@, property: PropertyView::Selectable },
        StateletView { name: "view"@, property: PropertyView::Togglable(false) },
    ]
}

/// The list of files the rebuild page starts with.
pub open spec fn initial_files() -> Seq<Seq<char>> {
    seq!["one"@, "two"@, "three"@, "four"@, "five"@]
}

/// The entries of the rebuild page.
pub open spec fn rebuild_statelets() -> Seq<StateletView> {
    seq![
        StateletView {
            name: "list of files"@,
            property: PropertyView::List { list: initial_files(), chosen: Seq::empty() },
        },
        StateletView { name: "insert rows in table"@, property: PropertyView::Togglable(false) },
        StateletView {
            name: "are you sure you want to rebuild?"@,
            property: PropertyView::Action(false),
        },
    ]
}

/// The home page: a way to the rebuild page, and a switch.
pub fn set_homepage() -> (p: Package)
    ensures
        p@ == (PackageView { statelets: homepage_statelets(), viewer: ViewerUpdater::Homepage }),
{
    let statelets = vec![
        Statelet::new("rebuild", Property::Selectable),
        Statelet::new("view", Property::Togglable(false)),
    ];
    assert(statelets_view(statelets@) =~= homepage_statelets());
    Package { statelets, viewer_updater: ViewerUpdater::Homepage }
}

/// The rebuild page: the list of tables, whether to insert rows, and the
/// action that rebuilds.
pub fn set_rebuild() -> (p: Package)
    ensures
        p@ == (PackageView { statelets: rebuild_statelets(), viewer: ViewerUpdater::Rebuild }),
{
    let files = vec_str_to_vec_string(vec!["one", "two", "three", "four", "five"]);
    assert(string_views(files@) =~= initial_files());
    let statelets = vec![
        Statelet::new(
            "list of files",
            Property::List(Special::new(files, FileOperator::GetFiles, String::new())),
        ),
        Statelet::new("insert rows in table", Property::Togglable(false)),
        Statelet::new("are you sure you want to rebuild?", Property::Action(false)),
    ];
    assert(statelets_view(statelets@) =~= rebuild_statelets());
    Package { statelets, viewer_updater: ViewerUpdater::Rebuild }
}

/// The pages of the program, by name.
#[derive(Debug)]
pub struct AppState {
    pub state: StrMap<Package>,
}

/// The texts of the pages, by name.
pub open spec fn app_view(a: AppState) -> Map<Seq<char>, PackageView> {
    a.state@.map_values(|p: Package| p@)
}

/// The pages the program starts with.
pub open spec fn initial_pages() -> Map<Seq<char>, PackageView> {
    Map::empty().insert(
        "homepage"@,
        PackageView { statelets: homepage_statelets(), viewer: ViewerUpdater::Homepage },
    ).insert(
        "rebuild"@,
        PackageView { statelets: rebuild_statelets(), viewer: ViewerUpdater::Rebuild },
    )
}

/// Both pages, under the names "homepage" and "rebuild".
pub fn set_app_state() -> (a: AppState)
    ensures
        app_view(a) == initial_pages(),
{
    let mut app_state = AppState { state: StrMap::new() };
    app_state.state.insert("homepage".to_owned(), set_homepage());
    app_state.state.insert("rebuild".to_owned(), set_rebuild());
    assert(app_view(app_state) =~= initial_pages());
    app_state
}

/// Where going back from each entry or page leads.
pub open spec fn history_map() -> Map<Seq<char>, Seq<char>> {
    Map::empty().insert("rebuild"@, "homepage"@).insert("view"@, "homepage"@).insert(
        "list of files"@,
        "rebuild"@,
    ).insert("insert rows in table"@, "rebuild"@).insert(
        "are you sure you want to rebuild?"@,
        "rebuild"@,
    ).insert("homepage"@, "homepage"@)
}

/// The way back from each entry (to the page that holds it) and from the
/// home page (to itself).
pub fn set_history() -> (h: StrMap<String>)
    ensures
        h@.map_values(|s: String| s@) == history_map(),
{
    let mut history = StrMap::new();
    history.insert("rebuild".to_owned(), "homepage".to_owned());
    history.insert("view".to_owned(), "homepage".to_owned());
    history.insert("list of files".to_owned(), "rebuild".to_owned());
    history.insert("insert rows in table".to_owned(), "rebuild".to_owned());
    history.insert("are you sure you want to rebuild?".to_owned(), "rebuild".to_owned());
    history.insert("homepage".to_owned(), "homepage".to_owned());
    assert(history@.map_values(|s: String| s@) =~= history_map());
    history
}

/// Where the program goes after a page was left with `vibe`: back along
/// `history` from `previous` for a lone tabulator, otherwise to `vibe`.
/// `None` where the history has no way back from `previous`.
pub fn resolve_vibe(vibe: String, previous: &String, history: &StrMap<String>) -> (r: Option<
    String,
>)
    ensures
        vibe@ == "\t"@ ==> (match r {
            Some(s) => history@.contains_key(previous@) && s@ == history@[previous@]@,
            None => !history@.contains_key(previous@),
        }),
        vibe@ != "\t"@ ==> (r matches Some(s) && s@ == vibe@),
{
    let tab = "\t".to_owned();
    if vibe == tab {
        match history.get(previous.as_str()) {
            Some(s) => Some(s.clone()),
            None => None,
        }
    } else {
        Some(vibe)
    }
}

/// The rebuild page's list of tables holds exactly the names in `tables`,
/// each once, with nothing chosen.
pub open spec fn lists_tables(p: PropertyView, tables: Map<Seq<char>, String>) -> bool {
    &&& p matches PropertyView::List { list, chosen }
    &&& chosen == Seq::<char>::empty()
    &&& list.no_duplicates()
    &&& forall|k: Seq<char>| tables.contains_key(k) <==> list.contains(k)
}

/// Replaces the list of the rebuild page's first entry, if it is a list, by
/// the names of the tables in `tables`, with nothing chosen.
pub fn reloadables(app_state: AppState, tables: &Tables) -> (r: AppState)
    requires
        app_view(app_state).contains_key("rebuild"@),
        app_view(app_state)["rebuild"@].statelets.len() >= 1,
    ensures
        ({
            let before = app_view(app_state);
            let after = app_view(r);
            let p = before["rebuild"@];
            if p.statelets[0].property is List {
                &&& after == before.insert("rebuild"@, after["rebuild"@])
                &&& after["rebuild"@].viewer == p.viewer
                &&& after["rebuild"@].statelets == p.statelets.update(
                    0,
                    with_property(p.statelets[0], after["rebuild"@].statelets[0].property),
                )
                &&& lists_tables(after["rebuild"@].statelets[0].property, tables@)
            } else {
                after == before
            }
        }),
{
    let ghost before = app_view(app_state);
    let mut state = app_state.state;
    let key = "rebuild".to_owned();
    let package = match state.remove(key.as_str()) {
        Some(p) => p,
        None => {
            return AppState { state };
        },
    };
    let ghost p = package@;
    assert(p == before["rebuild"@]);
    let mut statelets = package.statelets;
    let viewer_updater = package.viewer_updater;
    assert(statelets_view(statelets@)[0] == statelets@[0]@);
    let is_list = match &statelets[0].property {
        Property::List(_) => true,
        _ => false,
    };
    if is_list {
        let mut st = Statelet { name: String::new(), property: Property::Selectable };
        statelets.set_and_swap(0, &mut st);
        let tables_row = tables.keys();
        st.property = Property::List(
            Special { list: tables_row, operator: FileOperator::GetFiles, chosen: String::new() },
        );
        statelets.set(0, st);
        assert(statelets_view(statelets@) =~= p.statelets.update(
            0,
            with_property(p.statelets[0], st.property@),
        ));
    } else {
        assert(statelets_view(statelets@) =~= p.statelets);
    }
    let new_package = Package { statelets, viewer_updater };
    state.insert(key, new_package);
    let r = AppState { state };
    assert(app_view(r) =~= before.insert("rebuild"@, new_package@));
    if !is_list {
        assert(before.insert("rebuild"@, p) =~= before);
    }
    r
}

} // verus!
