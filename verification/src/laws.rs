//! Properties of the library that span calls or hold of every input.

use vstd::prelude::*;
use crate::db_tools::{
    ActionView, CommandView, ErrorView, RebuildModel, RebuildStage, ReplyView, drop_query,
    exists_query, rebuild_start, rebuild_step, undroppable_code,
};
use crate::menu::{
    ImmediateView, OutcomeView, PropertyView, StateletView, list_step, main_step,
    reset_actions_view,
};
use crate::str_map::string_views;
use crate::menu::{
    ViewStepView, ViewerUpdater, choice_lines, statelet_lines, toggled_mark, view_step,
};
use crate::pages::{history_map, homepage_statelets, initial_pages, rebuild_statelets};
use crate::text::{
    decimal, digit_char, digits_value, full_validation, is_ascii_digit, parses_as_usize, repeat,
    unsigned_digits, usize_value, validation,
};

verus! {

/// `quick_maker` makes `n` copies: the result is `n` times as long as the
/// string repeated (and empty for `n <= 0`).
pub proof fn law_repeat_length(s: Seq<char>, n: int)
    ensures
        repeat(s, n).len() == (if n <= 0 { 0 } else { n * s.len() }),
    decreases n,
{
    if n > 0 {
        law_repeat_length(s, n - 1);
        assert(repeat(s, n) == repeat(s, n - 1) + s);
        assert(repeat(s, n).len() == repeat(s, n - 1).len() + s.len());
        if n - 1 <= 0 {
            assert(n == 1);
            assert(repeat(s, n - 1).len() == 0);
            assert(1 * s.len() == s.len());
        } else {
            let l = s.len() as int;
            assert((n - 1) * l + l == n * l) by (nonlinear_arith);
        }
    }
}

proof fn lemma_digit_char(d: nat)
    requires
        d < 10,
    ensures
        is_ascii_digit(digit_char(d)),
        digit_char(d) as int - '0' as int == d,
{
}

/// The decimal text of `n` is made of digits and reads back as `n`.
pub proof fn law_decimal_reads_back(n: nat)
    ensures
        decimal(n).len() > 0,
        forall|i: int| 0 <= i < decimal(n).len() ==> is_ascii_digit(#[trigger] decimal(n)[i]),
        digits_value(decimal(n)) == n,
    decreases n,
{
    if n < 10 {
        lemma_digit_char(n);
        let s = decimal(n);
        assert(s.drop_last() =~= Seq::<char>::empty());
        assert(digits_value(s.drop_last()) == 0);
        assert(digits_value(s) == digits_value(s.drop_last()) * 10 + (s.last() as int - '0' as int));
    } else {
        law_decimal_reads_back(n / 10);
        lemma_digit_char(n % 10);
        let s = decimal(n);
        assert(s.drop_last() =~= decimal(n / 10));
        assert(digits_value(s) == digits_value(s.drop_last()) * 10 + (s.last() as int - '0' as int));
        assert((n / 10) * 10 + n % 10 == n) by (nonlinear_arith);
        assert forall|i: int| 0 <= i < s.len() implies is_ascii_digit(#[trigger] s[i]) by {
            if i < s.len() - 1 {
                assert(s[i] == decimal(n / 10)[i]);
            }
        }
    }
}

/// The number drawn before an entry, typed back, selects that entry: for
/// every index `i` of a list of `len` items, the text `decimal(i)` is
/// validated as `i`.
pub proof fn law_printed_index_selects(i: nat, len: nat)
    requires
        i < len,
        len <= usize::MAX + 1,
    ensures
        parses_as_usize(decimal(i)),
        validation(decimal(i), len) == Ok::<int, Seq<char>>(i as int),
        full_validation(Ok(decimal(i)), len) == Ok::<int, Seq<char>>(i as int),
{
    law_decimal_reads_back(i);
    assert(is_ascii_digit(decimal(i)[0]));
    assert(unsigned_digits(decimal(i)) == decimal(i));
    reveal_strlit("\t");
    assert(decimal(i) != "\t"@) by {
        if decimal(i) == "\t"@ {
            assert(decimal(i)[0] == '\t');
        }
    }
}

/// An accepted index is within the list: whatever is typed, an `Ok` from the
/// validation names an item of the list.
pub proof fn law_validated_index_in_bounds(input: Result<Seq<char>, Seq<char>>, len: nat)
    ensures
        full_validation(input, len) matches Ok(i) ==> 0 <= i < len,
{
    if let Ok(s) = input {
        if parses_as_usize(s) {
            lemma_digits_nonneg(unsigned_digits(s));
        }
    }
}

proof fn lemma_digits_nonneg(s: Seq<char>)
    requires
        forall|i: int| 0 <= i < s.len() ==> is_ascii_digit(#[trigger] s[i]),
    ensures
        digits_value(s) >= 0,
    decreases s.len(),
{
    if s.len() > 0 {
        assert forall|i: int| 0 <= i < s.drop_last().len() implies is_ascii_digit(
            #[trigger] s.drop_last()[i],
        ) by {
            assert(s.drop_last()[i] == s[i]);
        }
        lemma_digits_nonneg(s.drop_last());
        assert(is_ascii_digit(s[s.len() - 1]));
    }
}


/// No step of a page adds, removes, renames or reorders its entries, or
/// changes how it is drawn: neither a line typed on the page, nor one typed
/// on an opened list, nor switching the actions off.
pub proof fn law_entries_kept(
    v: ImmediateView,
    input: Result<Seq<char>, Seq<char>>,
    index: int,
)
    ensures
        main_step(v, input).0.statelets.len() == v.statelets.len(),
        main_step(v, input).0.viewer == v.viewer,
        forall|i: int|
            0 <= i < v.statelets.len() ==> #[trigger] main_step(v, input).0.statelets[i].name
                == v.statelets[i].name,
        list_step(v, index, input).statelets.len() == v.statelets.len(),
        list_step(v, index, input).viewer == v.viewer,
        forall|i: int|
            0 <= i < v.statelets.len() ==> #[trigger] list_step(v, index, input).statelets[i].name
                == v.statelets[i].name,
        reset_actions_view(v.statelets).len() == v.statelets.len(),
        forall|i: int|
            0 <= i < v.statelets.len() ==> #[trigger] reset_actions_view(v.statelets)[i].name
                == v.statelets[i].name,
{
    law_validated_index_in_bounds(input, v.statelets.len());
    if 0 <= index < v.statelets.len() {
        if let PropertyView::List { list, chosen } = v.statelets[index].property {
            law_validated_index_in_bounds(input, list.len());
        }
    }
}

/// Picking a switch twice with the same line leaves the page as it was.
pub proof fn law_toggle_twice(v: ImmediateView, line: Seq<char>)
    requires
        full_validation(Ok(line), v.statelets.len()) matches Ok(i) && v.statelets[i].property is Togglable,
    ensures
        main_step(main_step(v, Ok(line)).0, Ok(line)).0 == v,
        main_step(v, Ok(line)).1 == OutcomeView::Continue,
        main_step(main_step(v, Ok(line)).0, Ok(line)).1 == OutcomeView::Continue,
{
    law_validated_index_in_bounds(Ok(line), v.statelets.len());
    let i = full_validation(Ok(line), v.statelets.len())->Ok_0;
    let w = main_step(v, Ok(line)).0;
    assert(w.statelets.len() == v.statelets.len());
    assert(w.statelets[i].property is Togglable);
    assert(main_step(w, Ok(line)).0.statelets =~= v.statelets);
    assert(main_step(w, Ok(line)).0 =~= v);
}

/// Every list of the entries has nothing chosen or one of its own items.
pub open spec fn choices_valid(sts: Seq<StateletView>) -> bool {
    forall|i: int|
        0 <= i < sts.len() ==> (#[trigger] sts[i].property matches PropertyView::List {
            list,
            chosen,
        } ==> chosen == Seq::<char>::empty() || list.contains(chosen))
}

/// The item chosen in a list is always one of its items (or nothing): every
/// step of a page keeps this.
pub proof fn law_choice_from_list(v: ImmediateView, input: Result<Seq<char>, Seq<char>>, index: int)
    requires
        choices_valid(v.statelets),
    ensures
        choices_valid(main_step(v, input).0.statelets),
        choices_valid(list_step(v, index, input).statelets),
        choices_valid(reset_actions_view(v.statelets)),
{
    law_entries_kept(v, input, index);
    law_validated_index_in_bounds(input, v.statelets.len());
    if 0 <= index < v.statelets.len() {
        if let PropertyView::List { list, chosen } = v.statelets[index].property {
            law_validated_index_in_bounds(input, list.len());
            if let Ok(j) = full_validation(input, list.len()) {
                assert(list.contains(list[j]));
            }
        }
    }
    let r = reset_actions_view(v.statelets);
    assert forall|i: int| 0 <= i < r.len() implies (#[trigger] r[i].property matches PropertyView::List {
        list,
        chosen,
    } ==> chosen == Seq::<char>::empty() || list.contains(chosen)) by {
        assert(v.statelets[i].property matches PropertyView::List { .. } ==> r[i] == v.statelets[i]);
    }
}

/// After the actions are switched off none is on, every other entry is as
/// it was, and switching them off again changes nothing.
pub proof fn law_reset_actions(sts: Seq<StateletView>)
    ensures
        forall|i: int|
            0 <= i < sts.len() ==> #[trigger] reset_actions_view(sts)[i].property
                != PropertyView::Action(true),
        forall|i: int|
            0 <= i < sts.len() && !(sts[i].property is Action) ==> #[trigger] reset_actions_view(
                sts,
            )[i] == sts[i],
        reset_actions_view(reset_actions_view(sts)) == reset_actions_view(sts),
        reset_actions_view(sts).len() == sts.len(),
        forall|i: int|
            0 <= i < sts.len() && sts[i].property is Action ==> #[trigger] reset_actions_view(sts)[i]
                == (StateletView { name: sts[i].name, property: PropertyView::Action(false) }),
{
    assert(reset_actions_view(reset_actions_view(sts)) =~= reset_actions_view(sts));
}

/// Taking a value out of a map and putting it back under its key gives the
/// map back: how the program returns a page to the pages after showing it.
pub proof fn law_take_and_return<V>(m: Map<Seq<char>, V>, k: Seq<char>)
    requires
        m.contains_key(k),
    ensures
        m.remove(k).insert(k, m[k]) == m,
{
    assert(m.remove(k).insert(k, m[k]) =~= m);
}

/// Every way back leads to a page that exists, and every entry of every
/// page has a way back, to the page that holds it.
pub proof fn law_history_leads_to_pages()
    ensures
        forall|k: Seq<char>|
            #[trigger] history_map().contains_key(k) ==> initial_pages().contains_key(
                history_map()[k],
            ),
        forall|p: Seq<char>, i: int|
            initial_pages().contains_key(p) && 0 <= i < initial_pages()[p].statelets.len()
                ==> history_map().contains_key(#[trigger] initial_pages()[p].statelets[i].name)
                && history_map()[initial_pages()[p].statelets[i].name] == p,
{
    reveal_strlit("homepage");
    reveal_strlit("rebuild");
    reveal_strlit("view");
    reveal_strlit("list of files");
    reveal_strlit("insert rows in table");
    reveal_strlit("are you sure you want to rebuild?");
    let pages = initial_pages();
    let h = history_map();
    let home = homepage_statelets();
    let reb = rebuild_statelets();
    assert("homepage"@[0] != "rebuild"@[0]);
    assert("homepage"@ != "rebuild"@);
    assert(pages["homepage"@].statelets == home);
    assert(pages["rebuild"@].statelets == reb);
    assert(home[0].name == "rebuild"@ && home[1].name == "view"@);
    assert(reb[0].name == "list of files"@ && reb[1].name == "insert rows in table"@);
    assert(reb[2].name == "are you sure you want to rebuild?"@);
    assert forall|k: Seq<char>| #[trigger] h.contains_key(k) implies pages.contains_key(h[k]) by {
        assert(h[k] == "homepage"@ || h[k] == "rebuild"@);
    }
    assert forall|p: Seq<char>, i: int|
        pages.contains_key(p) && 0 <= i < pages[p].statelets.len() implies h.contains_key(
            #[trigger] pages[p].statelets[i].name,
        ) && h[pages[p].statelets[i].name] == p by {
        if p == "homepage"@ {
            assert(home.len() == 2);
            assert(i == 0 || i == 1);
        } else {
            assert(p == "rebuild"@);
            assert(reb.len() == 3);
            assert(i == 0 || i == 1 || i == 2);
        }
    }
}

/// The states and the actions of a rebuild that gets `replies`, one after
/// the other.
pub open spec fn rebuild_run(m: RebuildModel, replies: Seq<ReplyView>) -> (RebuildModel, Seq<ActionView>)
    decreases replies.len(),
{
    if replies.len() == 0 {
        (m, Seq::empty())
    } else {
        let (n, a) = rebuild_step(m, replies[0]);
        let (f, rest) = rebuild_run(n, replies.drop_first());
        (f, seq![a] + rest)
    }
}

/// `n` successful replies.
pub open spec fn successes(n: nat) -> Seq<ReplyView> {
    Seq::new(n, |i: int| ReplyView::Done)
}

/// Running each statement of `q`, in order.
pub open spec fn batches(q: Seq<Seq<char>>) -> Seq<ActionView> {
    q.map_values(|s: Seq<char>| ActionView::Run(CommandView::Batch(s)))
}

proof fn lemma_run_append(m: RebuildModel, a: Seq<ReplyView>, b: Seq<ReplyView>)
    ensures
        rebuild_run(m, a + b).0 == rebuild_run(rebuild_run(m, a).0, b).0,
        rebuild_run(m, a + b).1 == rebuild_run(m, a).1 + rebuild_run(rebuild_run(m, a).0, b).1,
    decreases a.len(),
{
    if a.len() == 0 {
        assert(a + b =~= b);
        assert(rebuild_run(m, a).1 + rebuild_run(m, b).1 =~= rebuild_run(m, b).1);
    } else {
        let n = rebuild_step(m, a[0]).0;
        assert((a + b).drop_first() =~= a.drop_first() + b);
        lemma_run_append(n, a.drop_first(), b);
        assert(rebuild_run(m, a + b).1 =~= rebuild_run(m, a).1 + rebuild_run(
            rebuild_run(m, a).0,
            b,
        ).1);
    }
}

proof fn lemma_insert_rows(m: RebuildModel, q: Seq<Seq<char>>, k: nat)
    requires
        m.row_queries == Some(Some(q)),
        m.stage == RebuildStage::Inserting(k as usize),
        k < q.len(),
        q.len() <= usize::MAX,
    ensures
        rebuild_run(m, successes((q.len() - k) as nat)).0 == (RebuildModel {
            stage: RebuildStage::Closing,
            ..m
        }),
        rebuild_run(m, successes((q.len() - k) as nat)).1 == batches(q.subrange(k + 1 as int, q.len() as int))
            + seq![ActionView::Run(CommandView::Close)],
    decreases q.len() - k,
{
    let rs = successes((q.len() - k) as nat);
    assert(rs.len() > 0);
    assert(rs[0] == ReplyView::Done);
    let (n, a) = rebuild_step(m, ReplyView::Done);
    let rest = rebuild_run(n, rs.drop_first());
    assert(rebuild_run(m, rs) == (rest.0, seq![a] + rest.1));
    if k + 1 < q.len() {
        assert(n == (RebuildModel { stage: RebuildStage::Inserting((k + 1) as usize), ..m }));
        assert(a == ActionView::Run(CommandView::Batch(q[k + 1 as int])));
        assert(rs.drop_first() =~= successes((q.len() - (k + 1)) as nat));
        lemma_insert_rows(n, q, k + 1);
        assert(batches(q.subrange(k + 1 as int, q.len() as int)) =~= seq![
            ActionView::Run(CommandView::Batch(q[k + 1 as int])),
        ] + batches(q.subrange(k + 2 as int, q.len() as int)));
    } else {
        assert(n == (RebuildModel { stage: RebuildStage::Closing, ..m }));
        assert(a == ActionView::Run(CommandView::Close));
        assert(rs.drop_first() =~= Seq::<ReplyView>::empty());
        assert(rest == (n, Seq::<ActionView>::empty()));
        assert(batches(q.subrange(k + 1 as int, q.len() as int)) =~= Seq::<ActionView>::empty());
    }
    assert(rebuild_run(m, rs).1 =~= batches(q.subrange(k + 1 as int, q.len() as int)) + seq![
        ActionView::Run(CommandView::Close),
    ]);
}

/// The row statements a rebuild will run: none when no rows were asked for.
pub open spec fn planned_rows(m: RebuildModel) -> Seq<Seq<char>> {
    match m.row_queries {
        Some(Some(q)) => q,
        _ => Seq::empty(),
    }
}

/// The row statements stored for `table`, in order; none when no rows were
/// asked for.
pub open spec fn rows_to_run(maybe_rows: Option<Map<Seq<char>, Vec<String>>>, table: Seq<char>) -> Seq<
    Seq<char>,
> {
    match maybe_rows {
        Some(r) => r[table]@.map_values(|x: String| x@),
        None => Seq::empty(),
    }
}

/// A rebuild starts by connecting, for the table asked for, with the
/// statement that the tables hold for it and, when rows are asked for,
/// exactly the row statements that the rows hold for it, all of them and in
/// order.
pub proof fn law_rebuild_plans_from_maps(
    tables: Map<Seq<char>, String>,
    maybe_rows: Option<Map<Seq<char>, Vec<String>>>,
    table: Seq<char>,
)
    ensures
        rebuild_start(tables, maybe_rows, table).table == table,
        rebuild_start(tables, maybe_rows, table).stage == RebuildStage::Connecting,
        tables.contains_key(table) ==> rebuild_start(tables, maybe_rows, table).create_sql == Some(
            tables[table]@,
        ),
        !tables.contains_key(table) ==> rebuild_start(tables, maybe_rows, table).create_sql is None,
        maybe_rows is None ==> rebuild_start(tables, maybe_rows, table).row_queries is None,
        maybe_rows is Some && maybe_rows->0.contains_key(table) ==> rebuild_start(
            tables,
            maybe_rows,
            table,
        ).row_queries == Some(Some(maybe_rows->0[table]@.map_values(|x: String| x@))),
        maybe_rows is Some && maybe_rows->0.contains_key(table) ==> planned_rows(
            rebuild_start(tables, maybe_rows, table),
        ).len() == maybe_rows->0[table]@.len(),
        maybe_rows is Some && maybe_rows->0.contains_key(table) ==> forall|i: int|
            0 <= i < maybe_rows->0[table]@.len() ==> #[trigger] planned_rows(
                rebuild_start(tables, maybe_rows, table),
            )[i] == maybe_rows->0[table]@[i]@,
        maybe_rows is Some && !maybe_rows->0.contains_key(table) ==> rebuild_start(
            tables,
            maybe_rows,
            table,
        ).row_queries == Some(None::<Seq<Seq<char>>>),
{
    if let Some(r) = maybe_rows {
        if r.contains_key(table) {
            assert(string_views(r[table]@) =~= r[table]@.map_values(|x: String| x@));
        }
    }
}

/// A table that other objects depend on cannot be dropped; that refusal
/// (SQLSTATE 2BP01) is taken as if the drop had succeeded.
pub proof fn law_undroppable_drop_passes(m: RebuildModel, message: Seq<char>)
    requires
        m.stage == RebuildStage::Dropping,
    ensures
        rebuild_step(m, ReplyView::Failed { message, code: Some("2BP01"@) }) == rebuild_step(
            m,
            ReplyView::Done,
        ),
{
}

/// A rebuild in which every command succeeds asks whether the table exists,
/// drops it if it does, creates it, runs every row statement in order,
/// closes the connection and reports success; and nothing else.
pub proof fn law_successful_rebuild(
    tables: Map<Seq<char>, String>,
    maybe_rows: Option<Map<Seq<char>, Vec<String>>>,
    table: Seq<char>,
    exists: bool,
)
    requires
        tables.contains_key(table),
        maybe_rows matches Some(r) ==> r.contains_key(table),
        rows_to_run(maybe_rows, table).len() <= usize::MAX,
    ensures
        ({
            let m = rebuild_start(tables, maybe_rows, table);
            let replies = seq![ReplyView::Done, ReplyView::Exists(exists)] + (if exists {
                seq![ReplyView::Done]
            } else {
                Seq::empty()
            }) + successes(rows_to_run(maybe_rows, table).len() + 2);
            rebuild_run(m, replies).1 == seq![
                ActionView::Run(
                    CommandView::Exists(
                        "SELECT EXISTS ( SELECT FROM pg_tables WHERE schemaname = 'public' AND tablename = '"@
                            + table + "');"@,
                    ),
                ),
            ] + (if exists {
                seq![ActionView::Run(CommandView::Batch("DROP TABLE "@ + table + ";"@))]
            } else {
                Seq::empty()
            }) + seq![ActionView::Run(CommandView::Batch(tables[table]@))] + batches(
                rows_to_run(maybe_rows, table),
            ) + seq![ActionView::Run(CommandView::Close), ActionView::Finish(Ok(()))]
        }),
{
    law_rebuild_plans_from_maps(tables, maybe_rows, table);
    let m = rebuild_start(tables, maybe_rows, table);
    assert(planned_rows(m) =~= rows_to_run(maybe_rows, table));
    lemma_successful_run(tables, maybe_rows, table, exists);
}

proof fn lemma_successful_run(
    tables: Map<Seq<char>, String>,
    maybe_rows: Option<Map<Seq<char>, Vec<String>>>,
    table: Seq<char>,
    exists: bool,
)
    requires
        tables.contains_key(table),
        maybe_rows matches Some(r) ==> r.contains_key(table),
        planned_rows(rebuild_start(tables, maybe_rows, table)).len() <= usize::MAX,
    ensures
        ({
            let m = rebuild_start(tables, maybe_rows, table);
            let replies = seq![ReplyView::Done, ReplyView::Exists(exists)] + (if exists {
                seq![ReplyView::Done]
            } else {
                Seq::empty()
            }) + successes(planned_rows(m).len() + 2);
            rebuild_run(m, replies).1 == seq![ActionView::Run(CommandView::Exists(exists_query(table)))]
                + (if exists {
                seq![ActionView::Run(CommandView::Batch(drop_query(table)))]
            } else {
                Seq::empty()
            }) + seq![ActionView::Run(CommandView::Batch(tables[table]@))] + batches(planned_rows(m))
                + seq![ActionView::Run(CommandView::Close), ActionView::Finish(Ok(()))]
        }),
{
    let m = rebuild_start(tables, maybe_rows, table);
    let q = planned_rows(m);
    let n = q.len();
    let done = ReplyView::Done;
    let m1 = rebuild_step(m, done).0;
    let m2 = rebuild_step(m1, ReplyView::Exists(exists)).0;
    let m3 = if exists { rebuild_step(m2, done).0 } else { m2 };
    assert(m3.stage == RebuildStage::Creating);
    assert(m3.row_queries == m.row_queries);
    // From the creation on: the rows, then the closing.
    let m4 = rebuild_step(m3, done).0;
    let tail = successes(n + 2);
    let rows_done = successes(n);
    let close = seq![done];
    assert(tail =~= seq![done] + (rows_done + close));
    lemma_run_cons(m3, done, rows_done + close);
    lemma_run_append(m4, rows_done, close);
    if n > 0 {
        assert(m3.row_queries == Some(Some(q)));
        assert(m4 == (RebuildModel { stage: RebuildStage::Inserting(0), ..m3 }));
        lemma_insert_rows(m4, q, 0);
    } else {
        assert(m4.stage == RebuildStage::Closing);
        assert(rows_done =~= Seq::<ReplyView>::empty());
    }
    let m5 = rebuild_run(m4, rows_done).0;
    assert(m5.stage == RebuildStage::Closing);
    assert(close =~= seq![done] + Seq::<ReplyView>::empty());
    lemma_run_cons(m5, done, Seq::<ReplyView>::empty());
    let expected_tail = batches(q) + seq![ActionView::Run(CommandView::Close), ActionView::Finish(Ok(()))];
    assert(rebuild_run(m3, tail).1 =~= expected_tail) by {
        if n > 0 {
            assert(batches(q) =~= seq![ActionView::Run(CommandView::Batch(q[0]))] + batches(
                q.subrange(1, n as int),
            ));
        } else {
            assert(batches(q) =~= Seq::<ActionView>::empty());
        }
    }
    // The connection, the check and the drop, then the rest.
    let after_check = (if exists { seq![done] } else { Seq::empty() }) + tail;
    let replies = seq![done, ReplyView::Exists(exists)] + (if exists {
        seq![done]
    } else {
        Seq::empty()
    }) + successes(n + 2);
    assert(replies =~= seq![done] + (seq![ReplyView::Exists(exists)] + after_check));
    lemma_run_cons(m, done, seq![ReplyView::Exists(exists)] + after_check);
    lemma_run_cons(m1, ReplyView::Exists(exists), after_check);
    if exists {
        assert(after_check =~= seq![done] + tail);
        lemma_run_cons(m2, done, tail);
    } else {
        assert(after_check =~= tail);
    }
    assert(rebuild_run(m, replies).1 =~= seq![ActionView::Run(CommandView::Exists(exists_query(table)))]
        + (if exists {
        seq![ActionView::Run(CommandView::Batch(drop_query(table)))]
    } else {
        Seq::empty()
    }) + seq![ActionView::Run(CommandView::Batch(tables[table]@))] + expected_tail);
}

proof fn lemma_run_cons(m: RebuildModel, r: ReplyView, rest: Seq<ReplyView>)
    ensures
        rebuild_run(m, seq![r] + rest) == (
            rebuild_run(rebuild_step(m, r).0, rest).0,
            seq![rebuild_step(m, r).1] + rebuild_run(rebuild_step(m, r).0, rest).1,
        ),
{
    let s = seq![r] + rest;
    assert(s[0] == r);
    assert(s.drop_first() =~= rest);
}

/// A failed command ends the rebuild with that command's error, except a
/// refusal to drop a table that other objects depend on, which is let pass.
pub proof fn law_failure_ends_rebuild(m: RebuildModel, message: Seq<char>, code: Option<Seq<char>>)
    requires
        m.stage != RebuildStage::Finished,
        !(m.stage == RebuildStage::Dropping && code == Some(undroppable_code())),
    ensures
        ({
            let (n, a) = rebuild_step(m, ReplyView::Failed { message, code });
            &&& n.stage == RebuildStage::Finished
            &&& a == ActionView::Finish(Err(if m.stage == RebuildStage::Closing {
                ErrorView::Close(message)
            } else {
                ErrorView::Db(message)
            }))
        }),
{
}

/// A finished rebuild issues nothing more.
pub proof fn law_finished_is_final(m: RebuildModel, reply: ReplyView)
    requires
        m.stage == RebuildStage::Finished,
    ensures
        rebuild_step(m, reply).0 == m,
        rebuild_step(m, reply).1 == ActionView::Finish(Err(ErrorView::Unexpected)),
{
}


/// The lines of a page's entries, one after the other: each on a new line,
/// its number, an arrow, its name, and a tabulator and `X` when it is a
/// switch that is on.
pub proof fn law_entry_lines(sts: Seq<StateletView>, n: nat)
    requires
        n < sts.len(),
    ensures
        statelet_lines(sts, 0) == Seq::<char>::empty(),
        statelet_lines(sts, n + 1) == statelet_lines(sts, n) + "\n"@ + decimal(n) + ") -> "@
            + sts[n as int].name + (if sts[n as int].property == PropertyView::Togglable(true) {
            "\t"@ + "X"@
        } else {
            Seq::<char>::empty()
        }),
        toggled_mark(sts[n as int].property) == (if sts[n as int].property
            == PropertyView::Togglable(true) {
            "\t"@ + "X"@
        } else {
            Seq::<char>::empty()
        }),
{
    crate::text::lemma_repeat_small("\t"@);
    assert(statelet_lines(sts, n + 1) == statelet_lines(sts, n) + "\n"@ + (decimal(n) + ") -> "@
        + sts[n as int].name + toggled_mark(sts[n as int].property)));
    assert(statelet_lines(sts, n + 1) =~= statelet_lines(sts, n) + "\n"@ + decimal(n) + ") -> "@
        + sts[n as int].name + toggled_mark(sts[n as int].property));
}

/// The lines of an opened list, one after the other: each item's number and
/// the item between bars, then a line break.
pub proof fn law_choice_lines(list: Seq<Seq<char>>, n: nat)
    requires
        n < list.len(),
    ensures
        choice_lines(list, 0) == Seq::<char>::empty(),
        choice_lines(list, n + 1) == choice_lines(list, n) + decimal(n) + "): |"@ + list[n as int]
            + "|"@ + "\n"@,
{
}

/// How the pages are drawn. The home page lists its entries below the
/// screen. The rebuild page asks for a rebuild of the chosen table when its
/// action (entry 2) has fired and entry 0 is a list, with rows inserted
/// exactly when entry 1 is a switch that is on; otherwise it draws a header
/// naming the chosen table (when entry 0 is a list), then its entries.
pub proof fn law_page_drawing(screen: Seq<char>, sts: Seq<StateletView>)
    ensures
        view_step(ViewerUpdater::Homepage, screen, sts) == ViewStepView::Shown(
            screen + statelet_lines(sts, sts.len()),
        ),
        sts.len() >= 3 && sts[2].property == PropertyView::Action(true) && sts[0].property is List
            ==> view_step(ViewerUpdater::Rebuild, screen, sts) == (ViewStepView::Rebuild {
            screen,
            table: sts[0].property->chosen,
            insert_rows: sts[1].property == PropertyView::Togglable(true),
        }),
        sts.len() >= 3 && sts[2].property != PropertyView::Action(true) && sts[0].property is List
            ==> view_step(ViewerUpdater::Rebuild, screen, sts) == ViewStepView::Shown(
            screen + "Chosen file: |"@ + sts[0].property->chosen + "|"@ + "\n"@ + "\n"@
                + statelet_lines(sts, sts.len()),
        ),
        sts.len() >= 3 && !(sts[0].property is List) ==> view_step(ViewerUpdater::Rebuild, screen, sts)
            == ViewStepView::Shown(screen + statelet_lines(sts, sts.len())),
{
    if sts.len() >= 3 && !(sts[0].property is List) {
        assert(screen + crate::menu::chosen_header(sts) =~= screen);
    }
    if sts.len() >= 3 && sts[0].property is List {
        assert(screen + crate::menu::chosen_header(sts) + statelet_lines(sts, sts.len()) =~= screen
            + "Chosen file: |"@ + sts[0].property->chosen + "|"@ + "\n"@ + "\n"@ + statelet_lines(
            sts,
            sts.len(),
        ));
    }
}

/// How a page takes a typed line. A read error or a refused number is shown
/// below the screen followed by two line breaks, except a lone tabulator,
/// which leaves the page with itself. An accepted index `i` flips a switch,
/// leaves the page with the name of a page entry, fires (flips) an action,
/// or shows a list: its items, then the item chosen so far. Nothing else
/// changes.
pub proof fn law_page_reacts(v: ImmediateView, input: Result<Seq<char>, Seq<char>>)
    ensures
        full_validation(input, v.statelets.len()) is Err && full_validation(input, v.statelets.len())->Err_0 == "\t"@ ==> main_step(v, input) == (
            v,
            OutcomeView::Leave(full_validation(input, v.statelets.len())->Err_0),
        ),
        full_validation(input, v.statelets.len()) is Err && full_validation(input, v.statelets.len())->Err_0 != "\t"@ ==> main_step(v, input) == (ImmediateView {
            screen: v.screen + full_validation(input, v.statelets.len())->Err_0 + "\n"@ + "\n"@,
            ..v
        }, OutcomeView::Continue),
        full_validation(input, v.statelets.len()) is Ok && v.statelets[full_validation(input, v.statelets.len())->Ok_0].property is Togglable ==> main_step(v, input) == (
        ImmediateView {
            statelets: v.statelets.update(
                full_validation(input, v.statelets.len())->Ok_0,
                StateletView {
                    name: v.statelets[full_validation(input, v.statelets.len())->Ok_0].name,
                    property: PropertyView::Togglable(
                        !v.statelets[full_validation(input, v.statelets.len())->Ok_0].property->Togglable_0,
                    ),
                },
            ),
            ..v
        }, OutcomeView::Continue),
        full_validation(input, v.statelets.len()) is Ok && v.statelets[full_validation(input, v.statelets.len())->Ok_0].property == PropertyView::Selectable ==> main_step(
            v,
            input,
        ) == (v, OutcomeView::Leave(v.statelets[full_validation(input, v.statelets.len())->Ok_0].name)),
        full_validation(input, v.statelets.len()) is Ok && v.statelets[full_validation(input, v.statelets.len())->Ok_0].property is Action ==> main_step(v, input) == (
        ImmediateView {
            statelets: v.statelets.update(
                full_validation(input, v.statelets.len())->Ok_0,
                StateletView {
                    name: v.statelets[full_validation(input, v.statelets.len())->Ok_0].name,
                    property: PropertyView::Action(!v.statelets[full_validation(input, v.statelets.len())->Ok_0].property->Action_0),
                },
            ),
            ..v
        }, OutcomeView::ActionFired),
        full_validation(input, v.statelets.len()) is Ok && v.statelets[full_validation(input, v.statelets.len())->Ok_0].property is List ==> main_step(v, input) == (
        ImmediateView {
            screen: v.screen + choice_lines(
                v.statelets[full_validation(input, v.statelets.len())->Ok_0].property->list,
                v.statelets[full_validation(input, v.statelets.len())->Ok_0].property->list.len(),
            ) + "\n"@ + "The Chosen File is: -> |"@ + v.statelets[full_validation(input, v.statelets.len())->Ok_0].property->chosen
                + "|"@ + "\n"@,
            ..v
        }, OutcomeView::ShowList(full_validation(input, v.statelets.len())->Ok_0)),
{
    if let Ok(i) = full_validation(input, v.statelets.len()) {
        if let PropertyView::List { list, chosen } = v.statelets[i].property {
            assert(main_step(v, input).0.screen =~= v.screen + choice_lines(list, list.len()) + "\n"@
                + "The Chosen File is: -> |"@ + chosen + "|"@ + "\n"@);
        }
    }
}

/// How an opened list takes a typed line: an accepted index makes that item
/// the chosen one, whatever was chosen before, and changes nothing else; a
/// refused line is shown below the screen followed by two line breaks,
/// except a lone tabulator, which changes nothing.
pub proof fn law_list_reacts(v: ImmediateView, index: int, input: Result<Seq<char>, Seq<char>>)
    requires
        0 <= index < v.statelets.len(),
        v.statelets[index].property is List,
    ensures
        full_validation(input, v.statelets[index].property->list.len()) is Ok ==> list_step(
            v,
            index,
            input,
        ) == (ImmediateView {
            statelets: v.statelets.update(
                index,
                StateletView {
                    name: v.statelets[index].name,
                    property: PropertyView::List {
                        list: v.statelets[index].property->list,
                        chosen: v.statelets[index].property->list[full_validation(input, v.statelets[index].property->list.len())->Ok_0],
                    },
                },
            ),
            ..v
        }),
        full_validation(input, v.statelets[index].property->list.len()) is Ok ==> list_step(
            v,
            index,
            input,
        ).statelets[index].property->chosen == v.statelets[index].property->list[full_validation(input, v.statelets[index].property->list.len())->Ok_0],
        full_validation(input, v.statelets[index].property->list.len()) is Err && full_validation(input, v.statelets[index].property->list.len())->Err_0
            == "\t"@ ==> list_step(v, index, input) == v,
        full_validation(input, v.statelets[index].property->list.len()) is Err && full_validation(input, v.statelets[index].property->list.len())->Err_0
            != "\t"@ ==> list_step(v, index, input) == (ImmediateView {
            screen: v.screen + full_validation(input, v.statelets[index].property->list.len())->Err_0 + "\n"@ + "\n"@,
            ..v
        }),
{
}


/// What a typed line gives as an index into a list of `len` items: a read
/// error is passed on; a lone tabulator comes back as an error carrying
/// itself; a number below `len` (an optional `+`, then digits) is accepted;
/// a larger one is refused with "Err: Input is not valid"; any other text is
/// refused with "Err: " and the parser's message.
pub proof fn law_validation_outcomes(input: Result<Seq<char>, Seq<char>>, len: nat)
    ensures
        input is Err ==> full_validation(input, len) == Err::<int, Seq<char>>(input->Err_0),
        input == Ok::<Seq<char>, Seq<char>>("\t"@) ==> full_validation(input, len) == Err::<
            int,
            Seq<char>,
        >("\t"@),
        input is Ok && input->Ok_0 != "\t"@ && parses_as_usize(input->Ok_0) && usize_value(
            input->Ok_0,
        ) < len ==> full_validation(input, len) == Ok::<int, Seq<char>>(usize_value(input->Ok_0)),
        input is Ok && input->Ok_0 != "\t"@ && parses_as_usize(input->Ok_0) && usize_value(
            input->Ok_0,
        ) >= len ==> full_validation(input, len) == Err::<int, Seq<char>>(
            "Err: Input is not valid"@,
        ),
        input is Ok && input->Ok_0 != "\t"@ && !parses_as_usize(input->Ok_0) ==> full_validation(
            input,
            len,
        ) == Err::<int, Seq<char>>(
            "Err: "@ + crate::text::parse_int_error_text(input->Ok_0),
        ),
{
}

/// A table missing from the tables is reported once the check (and the
/// drop, if any) is done, and rows missing for the table are reported once
/// it is created, both with "failed to get value from table: bad key:" and
/// the table's name.
pub proof fn law_missing_keys_reported(m: RebuildModel)
    ensures
        m.stage == RebuildStage::Checking && m.create_sql is None ==> rebuild_step(
            m,
            ReplyView::Exists(false),
        ) == (RebuildModel { stage: RebuildStage::Finished, ..m }, ActionView::Finish(
            Err(ErrorView::MissingKey("failed to get value from table: bad key:"@ + m.table)),
        )),
        m.stage == RebuildStage::Dropping && m.create_sql is None ==> rebuild_step(
            m,
            ReplyView::Done,
        ) == (RebuildModel { stage: RebuildStage::Finished, ..m }, ActionView::Finish(
            Err(ErrorView::MissingKey("failed to get value from table: bad key:"@ + m.table)),
        )),
        m.stage == RebuildStage::Creating && m.row_queries == Some(None::<Seq<Seq<char>>>)
            ==> rebuild_step(m, ReplyView::Done) == (RebuildModel {
            stage: RebuildStage::Finished,
            ..m
        }, ActionView::Finish(
            Err(ErrorView::MissingKey("failed to get value from table: bad key:"@ + m.table)),
        )),
{
}

/// A line typed on something that is not an opened list changes nothing.
pub proof fn law_list_needs_a_list(v: ImmediateView, index: int, input: Result<Seq<char>, Seq<char>>)
    requires
        !(0 <= index < v.statelets.len() && v.statelets[index].property is List),
    ensures
        list_step(v, index, input) == v,
{
}

} // verus!
