//! The stored registry: the document that holds it, how a registry is
//! written into one and read back from one, and where the document is kept.

use crate::conf::{views, Config, WorktreeConfig, WorktreeView};
use crate::error::{ErrorView, RedwoodError};
use crate::json::{
    json_error_text, parse_json, parsed_json, pretty_json, to_pretty_json, ReadDocument, ReadRow,
    WrittenRow,
};
use crate::path::{join, joined};
use crate::text::str_eq;
use vstd::prelude::*;
use vstd::string::*;

verus! {

/// A written row as plain values.
pub type RowView = Seq<(Seq<char>, Seq<char>)>;

/// A read row as plain values.
pub type ReadRowView = Seq<(Seq<char>, Option<Seq<char>>)>;

/// A read document as plain values.
pub type DocumentView = Seq<(Seq<char>, Seq<ReadRowView>)>;

/// What stands under the first entry of `entries` that is named `name`.
pub open spec fn entry<V>(entries: Seq<(Seq<char>, V)>, name: Seq<char>) -> Option<V>
    decreases entries.len(),
{
    if entries.len() == 0 {
        None
    } else if entries[0].0 == name {
        Some(entries[0].1)
    } else {
        entry(entries.drop_first(), name)
    }
}

/// The row under which a record is stored: its path, its name and, where it
/// has one, its session name. A record without a session name has no such
/// member.
pub open spec fn record_row(wt: WorktreeView) -> RowView {
    let named = seq![("repoPath"@, wt.repo_path), ("worktreeName"@, wt.worktree_name)];
    match wt.tmux_session_name {
        Some(name) => named.push(("tmuxSessionName"@, name)),
        None => named,
    }
}

/// The rows under which the records are stored, in their order.
pub open spec fn registry_rows(records: Seq<WorktreeView>) -> Seq<RowView> {
    records.map_values(|wt: WorktreeView| record_row(wt))
}

/// The record that a row holds: its path and its name must be texts; its
/// session name is the text of that member, and is absent where the member
/// is missing or `null`. Other members are passed over.
pub open spec fn row_record(row: ReadRowView) -> Option<WorktreeView> {
    match (entry(row, "repoPath"@), entry(row, "worktreeName"@)) {
        (Some(Some(path)), Some(Some(name))) => Some(
            WorktreeView {
                repo_path: path,
                worktree_name: name,
                tmux_session_name: match entry(row, "tmuxSessionName"@) {
                    Some(Some(session)) => Some(session),
                    _ => None,
                },
            },
        ),
        _ => None,
    }
}

/// The records that the rows hold, in their order, where every row holds
/// one.
pub open spec fn rows_records(rows: Seq<ReadRowView>) -> Option<Seq<WorktreeView>> {
    if forall|i: int| 0 <= i < rows.len() ==> row_record(#[trigger] rows[i]) is Some {
        Some(rows.map_values(|row: ReadRowView| row_record(row).unwrap()))
    } else {
        None
    }
}

/// The registry that a document holds: the records of its table of
/// workspaces. Other tables are passed over.
pub open spec fn document_records(document: DocumentView) -> Option<Seq<WorktreeView>> {
    match entry(document, "worktrees"@) {
        Some(rows) => rows_records(rows),
        None => None,
    }
}

/// The registry that a text holds, where it is a document that holds one.
pub open spec fn stored_registry(text: Seq<char>) -> Option<Seq<WorktreeView>> {
    match parsed_json(text) {
        Some(document) => document_records(document),
        None => None,
    }
}

/// A written row as it is read when nothing is lost: every member a text.
pub open spec fn as_read(row: RowView) -> ReadRowView {
    row.map_values(|member: (Seq<char>, Seq<char>)| (member.0, Some(member.1)))
}

/// The three member names are different names.
proof fn lemma_member_names_differ()
    ensures
        "repoPath"@ != "worktreeName"@,
        "repoPath"@ != "tmuxSessionName"@,
        "worktreeName"@ != "tmuxSessionName"@,
{
    reveal_strlit("repoPath");
    reveal_strlit("worktreeName");
    reveal_strlit("tmuxSessionName");
    assert("repoPath"@.len() == 8);
    assert("worktreeName"@.len() == 12);
    assert("tmuxSessionName"@.len() == 15);
}

/// The row written for a record holds that record.
pub proof fn lemma_record_row_reads_back(wt: WorktreeView)
    ensures
        row_record(as_read(record_row(wt))) == Some(wt),
{
    lemma_member_names_differ();
    let row = as_read(record_row(wt));
    let second = row.drop_first();
    let third = second.drop_first();
    assert(row[0] == ("repoPath"@, Some(wt.repo_path)));
    assert(second[0] == ("worktreeName"@, Some(wt.worktree_name)));
    assert(entry(row, "repoPath"@) == Some(Some(wt.repo_path)));
    assert(entry(second, "worktreeName"@) == Some(Some(wt.worktree_name)));
    assert(entry(row, "worktreeName"@) == Some(Some(wt.worktree_name)));
    assert(entry(second, "tmuxSessionName"@) == entry(third, "tmuxSessionName"@));
    assert(entry(row, "tmuxSessionName"@) == entry(second, "tmuxSessionName"@));
    match wt.tmux_session_name {
        Some(name) => {
            assert(third[0] == ("tmuxSessionName"@, Some(name)));
        },
        None => {
            assert(third.len() == 0);
        },
    }
}

/// A row is read by its members, whatever their order: two rows that have
/// the same under every name hold the same record.
pub proof fn lemma_row_read_by_members(first: ReadRowView, second: ReadRowView)
    requires
        forall|name: Seq<char>| #[trigger] entry(first, name) == entry(second, name),
    ensures
        row_record(first) == row_record(second),
{
}

/// Whether the document has what was written for `records`: a table of
/// workspaces with one row for each record, in their order, each row with
/// the members written for its record, in whatever order.
pub open spec fn has_written(document: DocumentView, records: Seq<WorktreeView>) -> bool {
    &&& entry(document, "worktrees"@) is Some
    &&& entry(document, "worktrees"@).unwrap().len() == records.len()
    &&& forall|i: int, name: Seq<char>|
        0 <= i < records.len() ==> #[trigger] entry(
            entry(document, "worktrees"@).unwrap()[i],
            name,
        ) == entry(as_read(record_row(records[i])), name)
}

/// What is written is read back: a document that has what was written for
/// `records` holds `records`.
pub proof fn lemma_written_registry_reads_back(
    records: Seq<WorktreeView>,
    document: DocumentView,
)
    requires
        has_written(document, records),
    ensures
        document_records(document) == Some(records),
{
    let rows = entry(document, "worktrees"@).unwrap();
    assert forall|i: int| 0 <= i < rows.len() implies row_record(#[trigger] rows[i]) == Some(
        records[i],
    ) by {
        lemma_record_row_reads_back(records[i]);
        lemma_row_read_by_members(rows[i], as_read(record_row(records[i])));
    }
    assert(rows_records(rows).unwrap() =~= records);
}

/// A text that is read as a document which has what was written for
/// `records` holds `records`: the same records with the same values in the
/// same order.
pub proof fn lemma_written_text_reads_back(records: Seq<WorktreeView>, text: Seq<char>)
    requires
        parsed_json(text) is Some,
        has_written(parsed_json(text).unwrap(), records),
    ensures
        stored_registry(text) == Some(records),
{
    lemma_written_registry_reads_back(records, parsed_json(text).unwrap());
}

/// What reading the place where the registry is kept has given.
#[derive(Debug)]
pub enum ConfigSource {
    /// Nothing is stored there.
    Missing,
    /// Something is stored there and could not be read, for this reason.
    Unreadable(String),
    /// This text is stored there.
    Text(String),
}

/// The place of the first entry named `name`.
fn find_entry<'a, V: DeepView>(entries: &'a Vec<(String, V)>, name: &str) -> (found: Option<&'a V>)
    ensures
        match found {
            Some(value) => entry(entries.deep_view(), name@) == Some(value.deep_view()),
            None => entry(entries.deep_view(), name@) is None,
        },
{
    let ghost all = entries.deep_view();
    let mut i: usize = 0;
    assert(all.skip(0) =~= all);
    while i < entries.len()
        invariant
            i <= entries.len(),
            all == entries.deep_view(),
            entry(all, name@) == entry(all.skip(i as int), name@),
        decreases entries.len() - i,
    {
        let ghost rest = all.skip(i as int);
        assert(rest[0] == all[i as int]);
        assert(rest.drop_first() =~= all.skip(i + 1));
        if str_eq(entries[i].0.as_str(), name) {
            return Some(&entries[i].1);
        }
        i = i + 1;
    }
    None
}

/// The row under which `wt` is stored.
fn write_row(wt: &WorktreeConfig) -> (row: WrittenRow)
    ensures
        row.deep_view() == record_row(wt@),
{
    let mut row: WrittenRow = Vec::new();
    row.push((String::from_str("repoPath"), wt.repo_path().to_owned()));
    row.push((String::from_str("worktreeName"), wt.worktree_name().to_owned()));
    match wt.tmux_session_name() {
        Some(name) => {
            row.push((String::from_str("tmuxSessionName"), name.to_owned()));
        },
        None => {},
    }
    assert(row.deep_view() =~= record_row(wt@));
    row
}

/// The record that `row` holds.
fn read_row(row: &ReadRow) -> (read: Option<WorktreeConfig>)
    ensures
        match read {
            Some(wt) => row_record(row.deep_view()) == Some(wt@),
            None => row_record(row.deep_view()) is None,
        },
{
    let path = match find_entry(row, "repoPath") {
        Some(Some(path)) => path,
        _ => {
            return None;
        },
    };
    let name = match find_entry(row, "worktreeName") {
        Some(Some(name)) => name,
        _ => {
            return None;
        },
    };
    let mut wt = WorktreeConfig::new(path.as_str(), name.as_str());
    match find_entry(row, "tmuxSessionName") {
        Some(Some(session)) => {
            wt.set_tmux_session_name(session.as_str());
        },
        _ => {},
    }
    Some(wt)
}

/// The registry that `document` holds, if it holds one: the records of its
/// table of workspaces, in their order.
pub fn read_document(document: &ReadDocument) -> (read: Option<Config>)
    ensures
        match read {
            Some(cfg) => document_records(document.deep_view()) == Some(cfg@),
            None => document_records(document.deep_view()) is None,
        },
{
    let rows = match find_entry(document, "worktrees") {
        Some(rows) => rows,
        None => {
            return None;
        },
    };
    let ghost held = rows.deep_view();
    let mut records: Vec<WorktreeConfig> = Vec::new();
    let mut i: usize = 0;
    while i < rows.len()
        invariant
            i <= rows.len(),
            held == rows.deep_view(),
            entry(document.deep_view(), "worktrees"@) == Some(held),
            records.len() == i,
            forall|k: int| 0 <= k < i ==> row_record(#[trigger] held[k]) == Some(records[k]@),
        decreases rows.len() - i,
    {
        assert(held[i as int] == rows[i as int].deep_view());
        match read_row(&rows[i]) {
            Some(wt) => {
                records.push(wt);
            },
            None => {
                return None;
            },
        }
        i = i + 1;
    }
    assert(views(records@) =~= rows_records(held).unwrap());
    Some(Config::with_records(records))
}

impl Config {
    /// The registry as the text of the document that holds it.
    pub fn serialize(&self) -> (written: Result<String, RedwoodError>)
        ensures
            match written {
                Ok(text) => pretty_json("worktrees"@, registry_rows(self@)) == Some(text@),
                Err(e) => {
                    &&& pretty_json("worktrees"@, registry_rows(self@)) is None
                    &&& e@ is ConfigWriteError
                },
            },
    {
        let records = self.worktrees();
        let mut rows: Vec<WrittenRow> = Vec::new();
        let mut i: usize = 0;
        while i < records.len()
            invariant
                i <= records.len(),
                views(records@) == self@,
                rows.len() == i,
                forall|k: int| 0 <= k < i ==> (#[trigger] rows[k]).deep_view() == record_row(self@[k]),
            decreases records.len() - i,
        {
            assert(views(records@)[i as int] == records[i as int]@);
            rows.push(write_row(&records[i]));
            i = i + 1;
        }
        assert(rows.deep_view() =~= registry_rows(self@));
        match to_pretty_json("worktrees", &rows) {
            Ok(text) => Ok(text),
            Err(error) => Err(RedwoodError::ConfigWriteError(json_error_text(&error))),
        }
    }
}

/// The registry that was stored: none where nothing is stored, the registry
/// that the stored text holds otherwise.
pub fn read_config(source: ConfigSource) -> (read: Result<Config, RedwoodError>)
    ensures
        match source {
            ConfigSource::Missing => read matches Ok(cfg) && cfg@ == Seq::<WorktreeView>::empty(),
            ConfigSource::Unreadable(reason) => {
                &&& read matches Err(e)
                &&& e@ == ErrorView::ConfigReadError(reason@)
            },
            ConfigSource::Text(text) => match stored_registry(text@) {
                Some(records) => read matches Ok(cfg) && cfg@ == records,
                None => read matches Err(e) && e@ is ConfigCorrupt,
            },
        },
{
    match source {
        ConfigSource::Missing => Ok(Config::new()),
        ConfigSource::Unreadable(reason) => Err(RedwoodError::ConfigReadError(reason)),
        ConfigSource::Text(text) => {
            let document = match parse_json(text.as_str()) {
                Ok(document) => document,
                Err(error) => {
                    return Err(RedwoodError::ConfigCorrupt(json_error_text(&error)));
                },
            };
            match read_document(&document) {
                Some(cfg) => Ok(cfg),
                None => Err(
                    RedwoodError::ConfigCorrupt(
                        String::from_str("it does not hold a table of workspaces"),
                    ),
                ),
            }
        },
    }
}

/// The directory where the registry is kept: `redwood` under the
/// configuration home, or else under `.config` in the user's home.
pub open spec fn config_dir(xdg_config_home: Option<Seq<char>>, home: Option<Seq<char>>) -> Option<
    Seq<char>,
> {
    match (xdg_config_home, home) {
        (Some(dir), _) => Some(joined(dir, "redwood"@)),
        (None, Some(dir)) => Some(joined(joined(dir, ".config"@), "redwood"@)),
        (None, None) => None,
    }
}

/// The directory where the registry is kept, from the configuration home and
/// the user's home as the environment gives them.
pub fn get_config_dir(xdg_config_home: Option<&str>, home: Option<&str>) -> (dir: Result<
    String,
    RedwoodError,
>)
    ensures
        match config_dir(xdg_config_home.deep_view(), home.deep_view()) {
            Some(path) => dir matches Ok(found) && found@ == path,
            None => dir matches Err(e) && e@ == ErrorView::ConfigPathUnresolvable,
        },
{
    if let Some(dir) = xdg_config_home {
        return Ok(join(dir, "redwood"));
    }
    if let Some(dir) = home {
        let under = join(dir, ".config");
        return Ok(join(under.as_str(), "redwood"));
    }
    Err(RedwoodError::ConfigPathUnresolvable)
}

/// The file where the registry is kept: `conf.json` in its directory.
pub fn get_config_path(xdg_config_home: Option<&str>, home: Option<&str>) -> (file: Result<
    String,
    RedwoodError,
>)
    ensures
        match config_dir(xdg_config_home.deep_view(), home.deep_view()) {
            Some(dir) => file matches Ok(found) && found@ == joined(dir, "conf.json"@),
            None => file matches Err(e) && e@ == ErrorView::ConfigPathUnresolvable,
        },
{
    match get_config_dir(xdg_config_home, home) {
        Ok(dir) => Ok(join(dir.as_str(), "conf.json")),
        Err(e) => Err(e),
    }
}

} // verus!
