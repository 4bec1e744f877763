//! The menus: pages made of entries ("statelets"), how a page is drawn, and
//! how a page reacts to what the user types.

use vstd::prelude::*;
use vstd::string::StringExecFns;
use vstd::pervasive::VecAdditionalExecFns;
use crate::screen::Screen;
use crate::str_map::{StrMap, clone_strings, string_views};
use crate::text::{
    completely_validate_input, decimal, decimal_string, full_validation, input_view,
    lemma_repeat_small, newlines, tabber, tabs,
};

verus! {

/// The operation that comes with a list. The one there is, `get_files`,
/// accepts any list.
pub fn get_files(_list: &Vec<String>) -> (r: Result<(), String>)
    ensures
        r is Ok,
{
    Ok(())
}

/// Which operation a list carries.
#[derive(Clone, Copy, Debug, PartialEq, Eq)]
pub enum FileOperator {
    /// `get_files`.
    GetFiles,
}

/// A list to choose one item from, with the item chosen so far.
#[derive(Debug)]
pub struct Special {
    pub list: Vec<String>,
    pub operator: FileOperator,
    pub chosen: String,
}

impl Special {
    pub fn new(list: Vec<String>, operator: FileOperator, chosen: String) -> (r: Special)
        ensures
            r.list == list,
            r.operator == operator,
            r.chosen == chosen,
    {
        Special { list, operator, chosen }
    }
}

/// What an entry of a page does when it is picked.
#[derive(Debug)]
pub enum Property {
    /// A switch that fires an action; the flag says whether it fired.
    Action(bool),
    /// Leads to the page of the same name.
    Selectable,
    /// A switch that is on or off.
    Togglable(bool),
    /// A list to choose from.
    List(Special),
}

/// The texts of a property.
pub enum PropertyView {
    Action(bool),
    Selectable,
    Togglable(bool),
    List { list: Seq<Seq<char>>, chosen: Seq<char> },
}

impl View for Property {
    type V = PropertyView;

    open spec fn view(&self) -> PropertyView {
        match self {
            Property::Action(b) => PropertyView::Action(*b),
            Property::Selectable => PropertyView::Selectable,
            Property::Togglable(b) => PropertyView::Togglable(*b),
            Property::List(s) => PropertyView::List { list: string_views(s.list@), chosen: s.chosen@ },
        }
    }
}

/// The mark drawn after an entry that is switched on.
pub open spec fn toggled_mark(p: PropertyView) -> Seq<char> {
    if p == PropertyView::Togglable(true) {
        tabs(1) + "X"@
    } else {
        Seq::empty()
    }
}

impl Property {
    /// Whether this is a switch that is on.
    pub fn is_toggled_bool(&self) -> (b: bool)
        ensures
            b == (self@ == PropertyView::Togglable(true)),
    {
        if let Property::Togglable(booly) = self {
            return *booly;
        }
        false
    }

    /// The mark drawn after the entry: a tabulator and `X` for a switch that
    /// is on, nothing otherwise.
    pub fn is_toggled(&self) -> (s: String)
        ensures
            s@ == toggled_mark(self@),
    {
        if let Property::Togglable(booly) = self {
            if *booly {
                let mut s = tabber(1);
                s.append("X");
                return s;
            }
        }
        String::new()
    }

    /// The flag of an action, `None` for anything else.
    pub fn is_selectable(&self) -> (r: Option<bool>)
        ensures
            r == (match self@ {
                PropertyView::Action(b) => Some(b),
                _ => None,
            }),
    {
        if let Property::Action(booly) = self {
            return Some(*booly);
        }
        None
    }
}

/// An entry of a page: a name and what it does.
#[derive(Debug)]
pub struct Statelet {
    pub name: String,
    pub property: Property,
}

/// The texts of an entry.
pub struct StateletView {
    pub name: Seq<char>,
    pub property: PropertyView,
}

impl View for Statelet {
    type V = StateletView;

    open spec fn view(&self) -> StateletView {
        StateletView { name: self.name@, property: self.property@ }
    }
}

/// The texts of a list of entries.
pub open spec fn statelets_view(s: Seq<Statelet>) -> Seq<StateletView> {
    s.map_values(|x: Statelet| x@)
}

impl Statelet {
    pub fn new(name: &str, property: Property) -> (r: Statelet)
        ensures
            r.name@ == name@,
            r.property == property,
    {
        Statelet { name: name.to_owned(), property }
    }
}

/// How a page is drawn.
#[derive(Clone, Copy, Debug, PartialEq, Eq)]
pub enum ViewerUpdater {
    /// `homepage_viewer_updater`.
    Homepage,
    /// `rebuild_viewer_updater`, for pages of at least three entries.
    Rebuild,
}

/// A page: its entries and how it is drawn.
#[derive(Debug)]
pub struct Package {
    pub statelets: Vec<Statelet>,
    pub viewer_updater: ViewerUpdater,
}

impl Package {
    pub fn new(statelets: Vec<Statelet>, viewer_updater: ViewerUpdater) -> (r: Package)
        ensures
            r.statelets == statelets,
            r.viewer_updater == viewer_updater,
    {
        Package { statelets, viewer_updater }
    }
}

/// The line drawn for entry `i`: its number, an arrow, its name and its mark.
pub open spec fn statelet_line(i: nat, s: StateletView) -> Seq<char> {
    decimal(i) + ") -> "@ + s.name + toggled_mark(s.property)
}

/// The lines of the first `n` entries, each after a line break.
pub open spec fn statelet_lines(sts: Seq<StateletView>, n: nat) -> Seq<char>
    decreases n,
{
    if n == 0 {
        Seq::empty()
    } else {
        statelet_lines(sts, (n - 1) as nat) + "\n"@ + statelet_line((n - 1) as nat, sts[n - 1])
    }
}

/// The home page drawn below `screen`.
pub open spec fn homepage_view(screen: Seq<char>, sts: Seq<StateletView>) -> Seq<char> {
    screen + statelet_lines(sts, sts.len())
}

/// The table to rebuild and whether to insert its rows, when the rebuild
/// page's action (entry 2) has fired and its entry 0 is a list; the table is
/// the item chosen in that list, and rows are inserted when entry 1 is on.
pub open spec fn rebuild_request(sts: Seq<StateletView>) -> Option<(Seq<char>, bool)> {
    if sts[2].property == PropertyView::Action(true) && sts[0].property is List {
        Some((sts[0].property->chosen, sts[1].property == PropertyView::Togglable(true)))
    } else {
        None
    }
}

/// The line that names the chosen table, if entry 0 is a list.
pub open spec fn chosen_header(sts: Seq<StateletView>) -> Seq<char> {
    match sts[0].property {
        PropertyView::List { chosen, .. } => "Chosen file: |"@ + chosen + "|"@ + "\n"@ + "\n"@,
        _ => Seq::empty(),
    }
}

/// The rebuild page drawn below `screen`, when no rebuild is asked for.
pub open spec fn rebuild_view(screen: Seq<char>, sts: Seq<StateletView>) -> Seq<char> {
    screen + chosen_header(sts) + statelet_lines(sts, sts.len())
}

/// The message drawn once `table` was rebuilt.
pub open spec fn rebuilt_message(table: Seq<char>) -> Seq<char> {
    "Table: |"@ + table + "| has been successfully updated...!"@
}

/// The outcome of drawing a page: the screen, or a rebuild to carry out
/// first.
#[derive(Debug)]
pub enum ViewStep {
    Shown(Screen),
    Rebuild { screen: Screen, table: String, insert_rows: bool },
}

/// The texts of a drawing outcome.
pub enum ViewStepView {
    Shown(Seq<char>),
    Rebuild { screen: Seq<char>, table: Seq<char>, insert_rows: bool },
}

impl View for ViewStep {
    type V = ViewStepView;

    open spec fn view(&self) -> ViewStepView {
        match self {
            ViewStep::Shown(s) => ViewStepView::Shown(s.s@),
            ViewStep::Rebuild { screen, table, insert_rows } => ViewStepView::Rebuild {
                screen: screen.s@,
                table: table@,
                insert_rows: *insert_rows,
            },
        }
    }
}

/// How `viewer` draws the entries `sts` below `screen`.
pub open spec fn view_step(viewer: ViewerUpdater, screen: Seq<char>, sts: Seq<StateletView>) -> ViewStepView {
    match viewer {
        ViewerUpdater::Homepage => ViewStepView::Shown(homepage_view(screen, sts)),
        ViewerUpdater::Rebuild => match rebuild_request(sts) {
            Some((table, insert_rows)) => ViewStepView::Rebuild { screen, table, insert_rows },
            None => ViewStepView::Shown(rebuild_view(screen, sts)),
        },
    }
}

fn append_statelet_lines(screen: &mut Screen, list: &Vec<Statelet>)
    ensures
        final(screen).s@ == old(screen).s@ + statelet_lines(statelets_view(list@), list@.len()),
{
    let ghost sts = statelets_view(list@);
    let mut i: usize = 0;
    while i < list.len()
        invariant
            i <= list@.len(),
            sts == statelets_view(list@),
            screen.s@ == old(screen).s@ + statelet_lines(sts, i as nat),
        decreases list@.len() - i,
    {
        let statelet = &list[i];
        let mut line = decimal_string(i);
        line.append(") -> ");
        line.append(statelet.name.as_str());
        let mark = statelet.property.is_toggled();
        line.append(mark.as_str());
        let ghost before = screen.s@;
        screen.concat_with_newlines(line.as_str(), 1, 0);
        proof {
            lemma_repeat_small("\n"@);
            assert(sts[i as int] == list@[i as int]@);
            assert(screen.s@ =~= before + "\n"@ + statelet_line(i as nat, sts[i as int]));
        }
        i = i + 1;
    }
}

/// Draws the home page: one numbered line per entry.
pub fn homepage_viewer_updater(screen: Screen, list_of_statelets: &Vec<Statelet>) -> (r: Screen)
    ensures
        r.s@ == homepage_view(screen.s@, statelets_view(list_of_statelets@)),
{
    let mut screen = screen;
    append_statelet_lines(&mut screen, list_of_statelets);
    screen
}

/// Draws the rebuild page, or asks for the rebuild when its action fired.
pub fn rebuild_viewer_updater(screen: Screen, list_of_statelets: &Vec<Statelet>) -> (r: ViewStep)
    requires
        list_of_statelets@.len() >= 3,
    ensures
        r@ == view_step(ViewerUpdater::Rebuild, screen.s@, statelets_view(list_of_statelets@)),
{
    let ghost sts = statelets_view(list_of_statelets@);
    assert(sts[0] == list_of_statelets@[0]@ && sts[1] == list_of_statelets@[1]@ && sts[2]
        == list_of_statelets@[2]@);
    let mut screen = screen;
    if let Property::Action(booly) = list_of_statelets[2].property {
        if let Property::List(special) = &list_of_statelets[0].property {
            if booly {
                let insert_rows = list_of_statelets[1].property.is_toggled_bool();
                return ViewStep::Rebuild { screen, table: special.chosen.clone(), insert_rows };
            }
        }
    }
    if let Property::List(special) = &list_of_statelets[0].property {
        let mut line = "Chosen file: |".to_owned();
        line.append(special.chosen.as_str());
        line.append("|");
        let ghost before = screen.s@;
        screen.concat_with_newlines(line.as_str(), 0, 2);
        proof {
            lemma_repeat_small("\n"@);
            assert(screen.s@ =~= before + chosen_header(sts));
        }
    } else {
        assert(chosen_header(sts) =~= Seq::<char>::empty());
        assert(screen.s@ =~= screen.s@ + chosen_header(sts));
    }
    append_statelet_lines(&mut screen, list_of_statelets);
    ViewStep::Shown(screen)
}

/// Adds the message that `table` was rebuilt, with two line breaks on each
/// side.
pub fn report_rebuild(screen: Screen, table: &String) -> (r: Screen)
    ensures
        r.s@ == screen.s@ + "\n"@ + "\n"@ + rebuilt_message(table@) + "\n"@ + "\n"@,
        r.s@ == screen.s@ + "\n"@ + "\n"@ + "Table: |"@ + table@ + "| has been successfully updated...!"@
            + "\n"@ + "\n"@,
{
    let ghost old_screen = screen.s@;
    let mut screen = screen;
    let mut msg = "Table: |".to_owned();
    msg.append(table.as_str());
    msg.append("| has been successfully updated...!");
    screen.concat_with_newlines(msg.as_str(), 2, 2);
    proof {
        lemma_repeat_small("\n"@);
        assert(screen.s@ =~= old_screen + "\n"@ + "\n"@ + "Table: |"@ + table@
            + "| has been successfully updated...!"@ + "\n"@ + "\n"@);
    }
    screen
}

impl ViewerUpdater {
    /// Whether this viewer can draw a page of `n` entries.
    pub open spec fn admits(self, n: nat) -> bool {
        self is Rebuild ==> n >= 3
    }

    /// Whether this viewer can draw a page of `n` entries.
    pub fn accepts(&self, n: usize) -> (b: bool)
        ensures
            b == self.admits(n as nat),
    {
        match self {
            ViewerUpdater::Homepage => true,
            ViewerUpdater::Rebuild => n >= 3,
        }
    }

    /// Draws `list` below `screen`.
    pub fn update(&self, screen: Screen, list: &Vec<Statelet>) -> (r: ViewStep)
        requires
            self.admits(list@.len()),
        ensures
            r@ == view_step(*self, screen.s@, statelets_view(list@)),
    {
        match self {
            ViewerUpdater::Homepage => ViewStep::Shown(homepage_viewer_updater(screen, list)),
            ViewerUpdater::Rebuild => rebuild_viewer_updater(screen, list),
        }
    }
}


/// An entry with another property.
pub open spec fn with_property(s: StateletView, p: PropertyView) -> StateletView {
    StateletView { name: s.name, property: p }
}

/// The numbered lines of the first `n` items of a list, each followed by a
/// line break.
pub open spec fn choice_lines(list: Seq<Seq<char>>, n: nat) -> Seq<char>
    decreases n,
{
    if n == 0 {
        Seq::empty()
    } else {
        choice_lines(list, (n - 1) as nat) + decimal((n - 1) as nat) + "): |"@ + list[n - 1]
            + "|"@ + "\n"@
    }
}

/// What is drawn when a list is opened: its items, then the item chosen.
pub open spec fn list_screen(list: Seq<Seq<char>>, chosen: Seq<char>) -> Seq<char> {
    choice_lines(list, list.len()) + "\n"@ + "The Chosen File is: -> |"@ + chosen + "|"@ + "\n"@
}

/// A page being shown: its entries, how it is drawn, and the text gathered
/// for the next drawing.
#[derive(Debug)]
pub struct Immediate {
    statelets: Vec<Statelet>,
    viewer: ViewerUpdater,
    screen: Screen,
}

/// The texts of a page being shown.
#[verifier::ext_equal]
pub struct ImmediateView {
    pub statelets: Seq<StateletView>,
    pub viewer: ViewerUpdater,
    pub screen: Seq<char>,
}

impl View for Immediate {
    type V = ImmediateView;

    closed spec fn view(&self) -> ImmediateView {
        ImmediateView {
            statelets: statelets_view(self.statelets@),
            viewer: self.viewer,
            screen: self.screen.s@,
        }
    }
}

/// What the caller does after a line typed on a page.
#[derive(Debug)]
pub enum ImmediateOutcome {
    /// Leave the page, handing back this text: the name of the entry picked,
    /// or the tabulator that asks to go back.
    Leave(String),
    /// Print the screen (the list of entry `i`), empty it, read a line and
    /// hand it to `list_input` with `i`.
    ShowList(usize),
    /// An action fired: print a fresh drawing of the page, wait for a line,
    /// then `reset_actions`.
    ActionFired,
    /// Nothing more before the page is redrawn.
    Continue,
}

/// The texts of an outcome.
pub enum OutcomeView {
    Leave(Seq<char>),
    ShowList(int),
    ActionFired,
    Continue,
}

impl View for ImmediateOutcome {
    type V = OutcomeView;

    open spec fn view(&self) -> OutcomeView {
        match self {
            ImmediateOutcome::Leave(s) => OutcomeView::Leave(s@),
            ImmediateOutcome::ShowList(i) => OutcomeView::ShowList(*i as int),
            ImmediateOutcome::ActionFired => OutcomeView::ActionFired,
            ImmediateOutcome::Continue => OutcomeView::Continue,
        }
    }
}

/// The page with `text` and two line breaks added to its screen.
pub open spec fn with_message(v: ImmediateView, text: Seq<char>) -> ImmediateView {
    ImmediateView { screen: v.screen + text + "\n"@ + "\n"@, ..v }
}

/// The page with entry `i` given the property `p`.
pub open spec fn with_entry(v: ImmediateView, i: int, p: PropertyView) -> ImmediateView {
    ImmediateView { statelets: v.statelets.update(i, with_property(v.statelets[i], p)), ..v }
}

/// How a page takes a line typed by the user: an error is shown (or, for a
/// lone tabulator, the page is left); a switch is flipped; a page entry is
/// left for; an action fires; a list is shown.
pub open spec fn main_step(v: ImmediateView, input: Result<Seq<char>, Seq<char>>) -> (
    ImmediateView,
    OutcomeView,
) {
    match full_validation(input, v.statelets.len()) {
        Err(e) => if e == "\t"@ {
            (v, OutcomeView::Leave(e))
        } else {
            (with_message(v, e), OutcomeView::Continue)
        },
        Ok(i) => match v.statelets[i].property {
            PropertyView::Togglable(b) => (
                with_entry(v, i, PropertyView::Togglable(!b)),
                OutcomeView::Continue,
            ),
            PropertyView::Selectable => (v, OutcomeView::Leave(v.statelets[i].name)),
            PropertyView::Action(b) => (
                with_entry(v, i, PropertyView::Action(!b)),
                OutcomeView::ActionFired,
            ),
            PropertyView::List { list, chosen } => (
                ImmediateView { screen: v.screen + list_screen(list, chosen), ..v },
                OutcomeView::ShowList(i),
            ),
        },
    }
}

/// How the list of entry `index` takes a line typed by the user: the item it
/// names becomes the chosen one; an error other than a lone tabulator is
/// shown. Anything but a list entry is left as it is.
pub open spec fn list_step(v: ImmediateView, index: int, input: Result<Seq<char>, Seq<char>>) -> ImmediateView {
    if 0 <= index < v.statelets.len() {
        match v.statelets[index].property {
            PropertyView::List { list, chosen } => match full_validation(input, list.len()) {
                Ok(j) => with_entry(v, index, PropertyView::List { list, chosen: list[j] }),
                Err(e) => if e == "\t"@ {
                    v
                } else {
                    with_message(v, e)
                },
            },
            _ => v,
        }
    } else {
        v
    }
}

/// The entry with its action, if it is one, switched off.
pub open spec fn reset_action(s: StateletView) -> StateletView {
    if s.property is Action {
        with_property(s, PropertyView::Action(false))
    } else {
        s
    }
}

/// The entries with every action switched off.
pub open spec fn reset_actions_view(sts: Seq<StateletView>) -> Seq<StateletView> {
    sts.map_values(|s: StateletView| reset_action(s))
}

/// Starts showing a page: the page with an empty screen, and its first
/// drawing (on a screen of its own).
pub fn basic_immediate(list_of_statelets: Vec<Statelet>, viewer_updater: ViewerUpdater) -> (r: (
    Immediate,
    ViewStep,
))
    requires
        viewer_updater.admits(list_of_statelets@.len()),
    ensures
        r.0@ == (ImmediateView {
            statelets: statelets_view(list_of_statelets@),
            viewer: viewer_updater,
            screen: Seq::empty(),
        }),
        r.1@ == view_step(viewer_updater, Seq::empty(), statelets_view(list_of_statelets@)),
{
    let first = viewer_updater.update(Screen::new(), &list_of_statelets);
    let im = Immediate { statelets: list_of_statelets, viewer: viewer_updater, screen: Screen::new() };
    (im, first)
}

impl Immediate {
    /// Whether the page's viewer can draw its entries.
    pub fn is_drawable(&self) -> (b: bool)
        ensures
            b == self@.viewer.admits(self@.statelets.len()),
    {
        self.viewer.accepts(self.statelets.len())
    }

    /// The text gathered for the next drawing.
    pub fn screen(&self) -> (r: &Screen)
        ensures
            r.s@ == self@.screen,
    {
        &self.screen
    }

    /// Empties the screen (after it was printed).
    pub fn clear_screen(&mut self)
        ensures
            final(self)@ == (ImmediateView { screen: Seq::empty(), ..old(self)@ }),
    {
        self.screen.clear();
    }

    fn set_property(&mut self, i: usize, p: Property)
        requires
            i < old(self)@.statelets.len(),
        ensures
            final(self)@ == with_entry(old(self)@, i as int, p@),
    {
        let mut st = Statelet { name: String::new(), property: Property::Selectable };
        self.statelets.set_and_swap(i, &mut st);
        st.property = p;
        self.statelets.set(i, st);
        assert(statelets_view(self.statelets@) =~= old(self)@.statelets.update(
            i as int,
            with_property(old(self)@.statelets[i as int], p@),
        ));
    }

    fn show_list(&mut self, i: usize)
        requires
            i < old(self)@.statelets.len(),
            old(self)@.statelets[i as int].property is List,
        ensures
            final(self)@ == (ImmediateView {
                screen: old(self)@.screen + list_screen(
                    old(self)@.statelets[i as int].property->list,
                    old(self)@.statelets[i as int].property->chosen,
                ),
                ..old(self)@
            }),
    {
        assert(statelets_view(self.statelets@)[i as int] == self.statelets@[i as int]@);
        if let Property::List(special) = &self.statelets[i].property {
            let ghost list = string_views(special.list@);
            let ghost start = self.screen.s@;
            let mut cnt: usize = 0;
            while cnt < special.list.len()
                invariant
                    self.statelets == old(self).statelets,
                    self.viewer == old(self).viewer,
                    special == old(self).statelets@[i as int].property->List_0,
                    cnt <= special.list@.len(),
                    list == string_views(special.list@),
                    self.screen.s@ == start + choice_lines(list, cnt as nat),
                decreases special.list@.len() - cnt,
            {
                let mut line = decimal_string(cnt);
                line.append("): |");
                line.append(special.list[cnt].as_str());
                line.append("|");
                let ghost before = self.screen.s@;
                self.screen.concat_with_newlines(line.as_str(), 0, 1);
                proof {
                    lemma_repeat_small("\n"@);
                    assert(self.screen.s@ =~= before + decimal(cnt as nat) + "): |"@
                        + list[cnt as int] + "|"@ + "\n"@);
                }
                cnt = cnt + 1;
            }
            let mut line = "The Chosen File is: -> |".to_owned();
            line.append(special.chosen.as_str());
            line.append("|");
            let ghost before = self.screen.s@;
            self.screen.concat_with_newlines(line.as_str(), 1, 1);
            proof {
                lemma_repeat_small("\n"@);
                assert(self.screen.s@ =~= start + list_screen(list, special.chosen@));
                assert(self@ =~= (ImmediateView {
                    screen: old(self)@.screen + list_screen(list, special.chosen@),
                    ..old(self)@
                }));
            }
        }
    }

    /// Takes a line typed by the user on this page.
    pub fn main_input(&mut self, input: Result<String, String>) -> (o: ImmediateOutcome)
        ensures
            (final(self)@, o@) == main_step(old(self)@, input_view(input)),
    {
        let ghost iv = input_view(input);
        match completely_validate_input(&self.statelets, input) {
            Err(err) => {
                let tab = "\t".to_owned();
                if err == tab {
                    return ImmediateOutcome::Leave(err);
                }
                self.screen.concat_with_newlines(err.as_str(), 0, 2);
                proof {
                    lemma_repeat_small("\n"@);
                    assert(self@ =~= with_message(old(self)@, err@));
                }
                ImmediateOutcome::Continue
            },
            Ok(i) => {
                assert(statelets_view(self.statelets@)[i as int] == self.statelets@[i as int]@);
                match &self.statelets[i].property {
                    Property::Togglable(booly) => {
                        let flipped = !*booly;
                        self.set_property(i, Property::Togglable(flipped));
                        ImmediateOutcome::Continue
                    },
                    Property::Selectable => ImmediateOutcome::Leave(self.statelets[i].name.clone()),
                    Property::Action(booly) => {
                        let flipped = !*booly;
                        self.set_property(i, Property::Action(flipped));
                        ImmediateOutcome::ActionFired
                    },
                    Property::List(_) => {
                        self.show_list(i);
                        ImmediateOutcome::ShowList(i)
                    },
                }
            },
        }
    }

    /// Takes the line typed after the list of entry `index` was shown.
    pub fn list_input(&mut self, index: usize, input: Result<String, String>)
        ensures
            final(self)@ == list_step(old(self)@, index as int, input_view(input)),
    {
        if index >= self.statelets.len() {
            return;
        }
        assert(statelets_view(self.statelets@)[index as int] == self.statelets@[index as int]@);
        let r = match &self.statelets[index].property {
            Property::List(special) => completely_validate_input(&special.list, input),
            _ => {
                return;
            },
        };
        match r {
            Ok(j) => {
                let mut st = Statelet { name: String::new(), property: Property::Selectable };
                self.statelets.set_and_swap(index, &mut st);
                let Statelet { name, property } = st;
                let new_property = match property {
                    Property::List(special) => {
                        let chosen = special.list[j].clone();
                        Property::List(
                            Special { list: special.list, operator: special.operator, chosen },
                        )
                    },
                    other => other,
                };
                self.statelets.set(index, Statelet { name, property: new_property });
                assert(statelets_view(self.statelets@) =~= list_step(
                    old(self)@,
                    index as int,
                    input_view(input),
                ).statelets);
            },
            Err(err) => {
                let tab = "\t".to_owned();
                if err != tab {
                    self.screen.concat_with_newlines(err.as_str(), 0, 2);
                    proof {
                        lemma_repeat_small("\n"@);
                        assert(self@ =~= with_message(old(self)@, err@));
                    }
                }
            },
        }
    }

    /// Switches every action of the page off.
    pub fn reset_actions(&mut self)
        ensures
            final(self)@ == (ImmediateView {
                statelets: reset_actions_view(old(self)@.statelets),
                ..old(self)@
            }),
    {
        let ghost start = self@.statelets;
        let mut i: usize = 0;
        while i < self.statelets.len()
            invariant
                i <= self@.statelets.len(),
                self@.statelets.len() == start.len(),
                self@.viewer == old(self)@.viewer,
                self@.screen == old(self)@.screen,
                forall|j: int| 0 <= j < i ==> #[trigger] self@.statelets[j] == reset_action(start[j]),
                forall|j: int| i <= j < start.len() ==> #[trigger] self@.statelets[j] == start[j],
            decreases self@.statelets.len() - i,
        {
            assert(statelets_view(self.statelets@)[i as int] == self.statelets@[i as int]@);
            let is_action = match &self.statelets[i].property {
                Property::Action(_) => true,
                _ => false,
            };
            if is_action {
                self.set_property(i, Property::Action(false));
            }
            i = i + 1;
        }
        assert(self@.statelets =~= reset_actions_view(start));
    }

    /// A drawing of the page on a screen of its own.
    pub fn fresh_view(&self) -> (r: ViewStep)
        requires
            self@.viewer.admits(self@.statelets.len()),
        ensures
            r@ == view_step(self@.viewer, Seq::empty(), self@.statelets),
    {
        self.viewer.update(Screen::new(), &self.statelets)
    }

    /// Draws the page below the gathered text, which is taken out of it.
    pub fn redraw(&mut self) -> (r: ViewStep)
        requires
            old(self)@.viewer.admits(old(self)@.statelets.len()),
        ensures
            r@ == view_step(old(self)@.viewer, old(self)@.screen, old(self)@.statelets),
            final(self)@ == (ImmediateView { screen: Seq::empty(), ..old(self)@ }),
    {
        let mut screen = Screen::new();
        std::mem::swap(&mut screen, &mut self.screen);
        self.viewer.update(screen, &self.statelets)
    }

    /// The page, handed back as a package.
    pub fn into_package(self) -> (p: Package)
        ensures
            statelets_view(p.statelets@) == self@.statelets,
            p.viewer_updater == self@.viewer,
    {
        Package { statelets: self.statelets, viewer_updater: self.viewer }
    }
}

} // verus!
