//! Rebuilding one table of the database: which statements are sent, in what
//! order, and how each answer is taken. The connection itself is driven by
//! the caller, which runs each command and reports how it went.

use vstd::prelude::*;
use vstd::string::StringExecFns;
use crate::err_tools::ErrorX;
use crate::handle_files::{Rows, Tables};
use crate::str_map::{clone_strings, string_views};

verus! {

/// Hands back the row statements unchanged: the names of the tables are the
/// keys of the map that was read.
pub fn postgresql_json_table_names(table_names: Rows) -> (r: Rows)
    ensures
        r@ == table_names@,
{
    table_names
}

/// The query that asks whether `table` exists in the public schema.
pub open spec fn exists_query(table: Seq<char>) -> Seq<char> {
    "SELECT EXISTS ( SELECT FROM pg_tables WHERE schemaname = 'public' AND tablename = '"@ + table
        + "');"@
}

/// The statement that drops `table`.
pub open spec fn drop_query(table: Seq<char>) -> Seq<char> {
    "DROP TABLE "@ + table + ";"@
}

/// The message of the error for a table name missing from a map.
pub open spec fn missing_key_message(table: Seq<char>) -> Seq<char> {
    "failed to get value from table: bad key:"@ + table
}

/// The SQLSTATE code of "dependent objects still exist": a table that other
/// objects depend on cannot be dropped, and that refusal is let pass.
pub open spec fn undroppable_code() -> Seq<char> {
    "2BP01"@
}

/// Builds `exists_query(table)`.
pub fn check_if_table_exists(table: &String) -> (q: String)
    ensures
        q@ == exists_query(table@),
{
    let mut q =
        "SELECT EXISTS ( SELECT FROM pg_tables WHERE schemaname = 'public' AND tablename = '".to_owned();
    q.append(table.as_str());
    q.append("');");
    q
}

/// Builds `drop_query(table)`.
pub fn drop_table(table: &String) -> (q: String)
    ensures
        q@ == drop_query(table@),
{
    let mut q = "DROP TABLE ".to_owned();
    q.append(table.as_str());
    q.append(";");
    q
}

/// Whether a failed statement carried the "dependent objects still exist"
/// code.
pub fn is_undroppable(code: &Option<String>) -> (b: bool)
    ensures
        b == (code matches Some(c) && c@ == undroppable_code()),
        b == (code matches Some(c) && c@ == "2BP01"@),
{
    match code {
        Some(c) => {
            let u = "2BP01".to_owned();
            *c == u
        },
        None => false,
    }
}

/// A command for the database connection.
#[derive(Debug)]
pub enum DbCommand {
    /// Open the connection.
    Connect,
    /// Run a query that answers with one boolean.
    Exists(String),
    /// Run a batch of statements.
    Batch(String),
    /// Close the connection.
    Close,
}

/// The texts of a command.
pub enum CommandView {
    Connect,
    Exists(Seq<char>),
    Batch(Seq<char>),
    Close,
}

impl View for DbCommand {
    type V = CommandView;

    open spec fn view(&self) -> CommandView {
        match self {
            DbCommand::Connect => CommandView::Connect,
            DbCommand::Exists(q) => CommandView::Exists(q@),
            DbCommand::Batch(q) => CommandView::Batch(q@),
            DbCommand::Close => CommandView::Close,
        }
    }
}

/// How the last command went.
#[derive(Debug)]
pub enum DbReply {
    /// It succeeded (connect, batch, close).
    Done,
    /// The boolean query succeeded with this answer.
    Exists(bool),
    /// It failed, with the error's text and its SQLSTATE code if it has one.
    Failed { message: String, code: Option<String> },
}

/// The texts of a reply.
pub enum ReplyView {
    Done,
    Exists(bool),
    Failed { message: Seq<char>, code: Option<Seq<char>> },
}

impl View for DbReply {
    type V = ReplyView;

    open spec fn view(&self) -> ReplyView {
        match self {
            DbReply::Done => ReplyView::Done,
            DbReply::Exists(b) => ReplyView::Exists(*b),
            DbReply::Failed { message, code } => ReplyView::Failed {
                message: message@,
                code: match code {
                    Some(c) => Some(c@),
                    None => None,
                },
            },
        }
    }
}

/// Why a rebuild stopped.
#[derive(Debug)]
pub enum RebuildError {
    /// A command failed; the error's text.
    Db(String),
    /// The table name is missing from the tables or from the rows.
    MissingKey(Box<ErrorX>),
    /// Closing the connection failed; the error's text.
    Close(String),
    /// A reply that does not answer the command that was issued.
    Unexpected,
}

/// The texts of a rebuild error.
pub enum ErrorView {
    Db(Seq<char>),
    MissingKey(Seq<char>),
    Close(Seq<char>),
    Unexpected,
}

impl View for RebuildError {
    type V = ErrorView;

    open spec fn view(&self) -> ErrorView {
        match self {
            RebuildError::Db(m) => ErrorView::Db(m@),
            RebuildError::MissingKey(e) => ErrorView::MissingKey(e@),
            RebuildError::Close(m) => ErrorView::Close(m@),
            RebuildError::Unexpected => ErrorView::Unexpected,
        }
    }
}

/// What the caller does next: run a command, or stop with an outcome.
#[derive(Debug)]
pub enum RebuildAction {
    Run(DbCommand),
    Finish(Result<(), RebuildError>),
}

/// The texts of an action.
pub enum ActionView {
    Run(CommandView),
    Finish(Result<(), ErrorView>),
}

impl View for RebuildAction {
    type V = ActionView;

    open spec fn view(&self) -> ActionView {
        match self {
            RebuildAction::Run(c) => ActionView::Run(c@),
            RebuildAction::Finish(Ok(())) => ActionView::Finish(Ok(())),
            RebuildAction::Finish(Err(e)) => ActionView::Finish(Err(e@)),
        }
    }
}

/// The command whose reply the rebuild waits for.
#[derive(Clone, Copy, Debug, PartialEq, Eq)]
pub enum RebuildStage {
    Connecting,
    Checking,
    Dropping,
    Creating,
    /// Running the row statement with this index.
    Inserting(usize),
    Closing,
    Finished,
}

/// A rebuild of one table under way.
#[derive(Debug)]
pub struct RebuildMachine {
    /// The table to rebuild.
    pub table: String,
    /// The statement that creates it, if the tables hold one.
    pub create_sql: Option<String>,
    /// `None` when no rows are to be inserted; otherwise the row statements,
    /// if the rows hold any for the table.
    pub row_queries: Option<Option<Vec<String>>>,
    pub stage: RebuildStage,
}

/// The texts of a rebuild under way.
pub struct RebuildModel {
    pub table: Seq<char>,
    pub create_sql: Option<Seq<char>>,
    pub row_queries: Option<Option<Seq<Seq<char>>>>,
    pub stage: RebuildStage,
}

impl View for RebuildMachine {
    type V = RebuildModel;

    open spec fn view(&self) -> RebuildModel {
        RebuildModel {
            table: self.table@,
            create_sql: match self.create_sql {
                Some(s) => Some(s@),
                None => None,
            },
            row_queries: match self.row_queries {
                None => None,
                Some(None) => Some(None),
                Some(Some(q)) => Some(Some(string_views(q@))),
            },
            stage: self.stage,
        }
    }
}

/// The model with another stage.
pub open spec fn with_stage(m: RebuildModel, stage: RebuildStage) -> RebuildModel {
    RebuildModel { stage, ..m }
}

/// The command that a stage waits on.
pub open spec fn stage_command(m: RebuildModel) -> CommandView {
    match m.stage {
        RebuildStage::Connecting => CommandView::Connect,
        RebuildStage::Checking => CommandView::Exists(exists_query(m.table)),
        RebuildStage::Dropping => CommandView::Batch(drop_query(m.table)),
        RebuildStage::Creating => CommandView::Batch(m.create_sql->0),
        RebuildStage::Inserting(k) => CommandView::Batch(m.row_queries->0->0[k as int]),
        _ => CommandView::Close,
    }
}

/// Enter `stage` and issue its command.
pub open spec fn go(m: RebuildModel, stage: RebuildStage) -> (RebuildModel, ActionView) {
    let n = with_stage(m, stage);
    (n, ActionView::Run(stage_command(n)))
}

/// Stop with `outcome`.
pub open spec fn stop(m: RebuildModel, outcome: Result<(), ErrorView>) -> (RebuildModel, ActionView) {
    (with_stage(m, RebuildStage::Finished), ActionView::Finish(outcome))
}

/// After the check (and the drop, if any): create the table, or stop if no
/// statement creates it.
pub open spec fn after_drop(m: RebuildModel) -> (RebuildModel, ActionView) {
    if m.create_sql is Some {
        go(m, RebuildStage::Creating)
    } else {
        stop(m, Err(ErrorView::MissingKey(missing_key_message(m.table))))
    }
}

/// After the row statement `k` (or, with `k == -1`, after the creation):
/// run the next row statement, or close.
pub open spec fn next_row(m: RebuildModel, k: int) -> (RebuildModel, ActionView) {
    match m.row_queries {
        Some(Some(q)) => if k + 1 < q.len() {
            go(m, RebuildStage::Inserting((k + 1) as usize))
        } else {
            go(m, RebuildStage::Closing)
        },
        _ => go(m, RebuildStage::Closing),
    }
}

/// After the creation: insert the rows if they were asked for (stopping if
/// the rows hold none for the table), then close.
pub open spec fn after_create(m: RebuildModel) -> (RebuildModel, ActionView) {
    match m.row_queries {
        None => go(m, RebuildStage::Closing),
        Some(None) => stop(m, Err(ErrorView::MissingKey(missing_key_message(m.table)))),
        Some(Some(q)) => next_row(m, -1),
    }
}

/// One step of a rebuild: the state and the action that follow a reply.
pub open spec fn rebuild_step(m: RebuildModel, reply: ReplyView) -> (RebuildModel, ActionView) {
    match (m.stage, reply) {
        (RebuildStage::Connecting, ReplyView::Done) => go(m, RebuildStage::Checking),
        (RebuildStage::Checking, ReplyView::Exists(true)) => go(m, RebuildStage::Dropping),
        (RebuildStage::Checking, ReplyView::Exists(false)) => after_drop(m),
        (RebuildStage::Dropping, ReplyView::Done) => after_drop(m),
        (RebuildStage::Dropping, ReplyView::Failed { message, code }) => if code == Some(
            undroppable_code(),
        ) {
            after_drop(m)
        } else {
            stop(m, Err(ErrorView::Db(message)))
        },
        (RebuildStage::Creating, ReplyView::Done) => after_create(m),
        (RebuildStage::Inserting(k), ReplyView::Done) => next_row(m, k as int),
        (RebuildStage::Closing, ReplyView::Done) => stop(m, Ok(())),
        (RebuildStage::Closing, ReplyView::Failed { message, .. }) => stop(
            m,
            Err(ErrorView::Close(message)),
        ),
        (RebuildStage::Finished, _) => stop(m, Err(ErrorView::Unexpected)),
        (_, ReplyView::Failed { message, .. }) => stop(m, Err(ErrorView::Db(message))),
        _ => stop(m, Err(ErrorView::Unexpected)),
    }
}

/// The rebuild of `table` as it starts: what the maps hold for it.
pub open spec fn rebuild_start(
    tables: Map<Seq<char>, String>,
    maybe_rows: Option<Map<Seq<char>, Vec<String>>>,
    table: Seq<char>,
) -> RebuildModel {
    RebuildModel {
        table,
        create_sql: if tables.contains_key(table) {
            Some(tables[table]@)
        } else {
            None
        },
        row_queries: match maybe_rows {
            None => None,
            Some(r) => Some(
                if r.contains_key(table) {
                    Some(string_views(r[table]@))
                } else {
                    None
                },
            ),
        },
        stage: RebuildStage::Connecting,
    }
}

/// The `Rows` map of an optional `Rows`.
pub open spec fn rows_map(maybe_rows: Option<Rows>) -> Option<Map<Seq<char>, Vec<String>>> {
    match maybe_rows {
        Some(r) => Some(r@),
        None => None,
    }
}

/// Starts the rebuild of `selected_table`: drop it if it exists, create it
/// from `tables`, fill it from `maybe_rows` when given, close. The first
/// action is to connect.
pub fn execute_rebuild(tables: Tables, maybe_rows: Option<Rows>, selected_table: &String) -> (r: (
    RebuildMachine,
    RebuildAction,
))
    ensures
        r.0@ == rebuild_start(tables@, rows_map(maybe_rows), selected_table@),
        r.1@ == ActionView::Run(CommandView::Connect),
{
    let create_sql = match tables.get(selected_table.as_str()) {
        Some(s) => Some(s.clone()),
        None => None,
    };
    let row_queries = match &maybe_rows {
        None => None,
        Some(rows) => match rows.get(selected_table.as_str()) {
            Some(q) => Some(Some(clone_strings(q))),
            None => Some(None),
        },
    };
    let m = RebuildMachine {
        table: selected_table.clone(),
        create_sql,
        row_queries,
        stage: RebuildStage::Connecting,
    };
    (m, RebuildAction::Run(DbCommand::Connect))
}

fn missing_key_error(table: &String) -> (e: RebuildError)
    ensures
        e@ == ErrorView::MissingKey(missing_key_message(table@)),
{
    let mut msg = "failed to get value from table: bad key:".to_owned();
    msg.append(table.as_str());
    RebuildError::MissingKey(ErrorX::new_box(msg.as_str()))
}

impl RebuildMachine {
    fn command(&self) -> (c: DbCommand)
        requires
            self.stage !is Finished,
            self.stage is Creating ==> self.create_sql is Some,
            self.stage matches RebuildStage::Inserting(k) ==> (self.row_queries matches Some(Some(
                q,
            )) && k < q.len()),
        ensures
            c@ == stage_command(self@),
    {
        match self.stage {
            RebuildStage::Connecting => DbCommand::Connect,
            RebuildStage::Checking => DbCommand::Exists(check_if_table_exists(&self.table)),
            RebuildStage::Dropping => DbCommand::Batch(drop_table(&self.table)),
            RebuildStage::Creating => match &self.create_sql {
                Some(s) => DbCommand::Batch(s.clone()),
                None => DbCommand::Close,
            },
            RebuildStage::Inserting(k) => match &self.row_queries {
                Some(Some(q)) => DbCommand::Batch(q[k].clone()),
                _ => DbCommand::Close,
            },
            _ => DbCommand::Close,
        }
    }

    fn enter(&mut self, stage: RebuildStage) -> (a: RebuildAction)
        requires
            stage !is Finished,
            stage is Creating ==> old(self).create_sql is Some,
            stage matches RebuildStage::Inserting(k) ==> (old(self).row_queries matches Some(Some(
                q,
            )) && k < q.len()),
        ensures
            (final(self)@, a@) == go(old(self)@, stage),
    {
        self.stage = stage;
        RebuildAction::Run(self.command())
    }

    fn finish(&mut self, outcome: Result<(), RebuildError>) -> (a: RebuildAction)
        ensures
            final(self)@ == with_stage(old(self)@, RebuildStage::Finished),
            a == RebuildAction::Finish(outcome),
    {
        self.stage = RebuildStage::Finished;
        RebuildAction::Finish(outcome)
    }

    fn after_drop(&mut self) -> (a: RebuildAction)
        ensures
            (final(self)@, a@) == after_drop(old(self)@),
    {
        if self.create_sql.is_some() {
            self.enter(RebuildStage::Creating)
        } else {
            let e = missing_key_error(&self.table);
            self.finish(Err(e))
        }
    }

    fn next_row(&mut self, k: usize) -> (a: RebuildAction)
        ensures
            (final(self)@, a@) == next_row(old(self)@, k as int),
    {
        let more = match &self.row_queries {
            Some(Some(q)) => k < q.len() && k + 1 < q.len(),
            _ => false,
        };
        if more {
            self.enter(RebuildStage::Inserting(k + 1))
        } else {
            self.enter(RebuildStage::Closing)
        }
    }

    fn after_create(&mut self) -> (a: RebuildAction)
        ensures
            (final(self)@, a@) == after_create(old(self)@),
    {
        match &self.row_queries {
            None => self.enter(RebuildStage::Closing),
            Some(None) => {
                let e = missing_key_error(&self.table);
                self.finish(Err(e))
            },
            Some(Some(q)) => {
                if q.len() > 0 {
                    self.enter(RebuildStage::Inserting(0))
                } else {
                    self.enter(RebuildStage::Closing)
                }
            },
        }
    }

    /// Takes the reply to the last command and says what to do next.
    pub fn step(&mut self, reply: DbReply) -> (a: RebuildAction)
        ensures
            (final(self)@, a@) == rebuild_step(old(self)@, reply@),
    {
        let stage = self.stage;
        match stage {
            RebuildStage::Connecting => match reply {
                DbReply::Done => self.enter(RebuildStage::Checking),
                DbReply::Failed { message, .. } => self.finish(Err(RebuildError::Db(message))),
                _ => self.finish(Err(RebuildError::Unexpected)),
            },
            RebuildStage::Checking => match reply {
                DbReply::Exists(true) => self.enter(RebuildStage::Dropping),
                DbReply::Exists(false) => self.after_drop(),
                DbReply::Failed { message, .. } => self.finish(Err(RebuildError::Db(message))),
                _ => self.finish(Err(RebuildError::Unexpected)),
            },
            RebuildStage::Dropping => match reply {
                DbReply::Done => self.after_drop(),
                DbReply::Failed { message, code } => {
                    if is_undroppable(&code) {
                        self.after_drop()
                    } else {
                        self.finish(Err(RebuildError::Db(message)))
                    }
                },
                _ => self.finish(Err(RebuildError::Unexpected)),
            },
            RebuildStage::Creating => match reply {
                DbReply::Done => self.after_create(),
                DbReply::Failed { message, .. } => self.finish(Err(RebuildError::Db(message))),
                _ => self.finish(Err(RebuildError::Unexpected)),
            },
            RebuildStage::Inserting(k) => match reply {
                DbReply::Done => self.next_row(k),
                DbReply::Failed { message, .. } => self.finish(Err(RebuildError::Db(message))),
                _ => self.finish(Err(RebuildError::Unexpected)),
            },
            RebuildStage::Closing => match reply {
                DbReply::Done => self.finish(Ok(())),
                DbReply::Failed { message, .. } => self.finish(Err(RebuildError::Close(message))),
                _ => self.finish(Err(RebuildError::Unexpected)),
            },
            RebuildStage::Finished => self.finish(Err(RebuildError::Unexpected)),
        }
    }
}

} // verus!
