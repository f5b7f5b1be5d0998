//! The database of logged hours: where it lies, and the queries put to it.

use vstd::prelude::*;

verus! {

/// `toml::de::Error`: why a text is no TOML, of which nothing is known
/// here.
#[verifier::external_type_specification]
#[verifier::external_body]
pub struct ExTomlError(toml::de::Error);

/// What a settings text holds under one key.
pub enum Entry {
    /// The key is not there.
    Missing,
    /// The key is there, and its value is no text.
    Other,
    /// The key is there with this text.
    Text(String),
}

/// An entry as a mathematical value.
pub enum EntryView {
    Missing,
    Other,
    Text(Seq<char>),
}

impl View for Entry {
    type V = EntryView;

    open spec fn view(&self) -> EntryView {
        match self {
            Entry::Missing => EntryView::Missing,
            Entry::Other => EntryView::Other,
            Entry::Text(text) => EntryView::Text(text@),
        }
    }
}

/// What the TOML table read from `text` holds under `key`, where `text` is
/// a TOML table at all.
pub uninterp spec fn toml_entry(text: Seq<char>, key: Seq<char>) -> Option<EntryView>;

/// Parses `text` as a `toml::Table` and looks `key` up in it with
/// `toml::map::Map::get`. Whether the text parses, and what the table holds
/// under the key, depends on the two texts alone.
#[verifier::external_body]
fn lookup(text: &str, key: &str) -> (entry: Result<Entry, toml::de::Error>)
    ensures
        match entry {
            Ok(found) => toml_entry(text@, key@) == Some(found@),
            Err(_) => toml_entry(text@, key@).is_none(),
        },
{
    match text.parse::<toml::Table>() {
        Err(error) => Err(error),
        Ok(table) => match table.get(key) {
            None => Ok(Entry::Missing),
            Some(toml::Value::String(found)) => Ok(Entry::Text(found.clone())),
            Some(_) => Ok(Entry::Other),
        },
    }
}

/// Settings of the database.
pub struct Config {
    /// The database file, once it is known.
    pub path: Option<String>,
}

/// Why settings could not be read.
pub enum ConfigError {
    /// The text is no TOML table.
    Parse(toml::de::Error),
    /// The table names no database.
    NoPath,
}

impl ConfigError {
    /// What the user is told.
    pub open spec fn message_text(self) -> Seq<char> {
        match self {
            ConfigError::Parse(_) => "Failed to parse config"@,
            ConfigError::NoPath => "No db path configured"@,
        }
    }

    pub fn message(&self) -> (message: String)
        ensures
            message@ == self.message_text(),
    {
        match self {
            ConfigError::Parse(_) => String::from_str("Failed to parse config"),
            ConfigError::NoPath => String::from_str("No db path configured"),
        }
    }
}

impl Config {
    /// Settings that name no database yet.
    pub fn new() -> (config: Config)
        ensures
            config.path.is_none(),
    {
        Config { path: None }
    }

    /// Names the database file.
    pub fn set_path(&mut self, path: String)
        ensures
            final(self).path == Some(path),
    {
        self.path = Some(path);
    }

    /// The database file, where one is named.
    pub fn get_path(&self) -> (path: Option<String>)
        ensures
            path == self.path,
    {
        match &self.path {
            Some(path) => Some(path.clone()),
            None => None,
        }
    }

    /// The settings that `entry`, found under the key `path`, amounts to. A
    /// path that is no text is passed over; none at all is an error.
    pub fn from_entry(entry: Entry) -> (config: Result<Config, ConfigError>)
        ensures
            match config {
                Ok(found) => match entry@ {
                    EntryView::Text(text) => found.path.is_some() && found.path.unwrap()@ == text,
                    EntryView::Other => found.path.is_none(),
                    EntryView::Missing => false,
                },
                Err(ConfigError::NoPath) => entry@ == EntryView::Missing,
                Err(ConfigError::Parse(_)) => false,
            },
    {
        let mut config = Config::new();
        match entry {
            Entry::Missing => {
                return Err(ConfigError::NoPath);
            },
            Entry::Other => {},
            Entry::Text(text) => {
                config.set_path(text);
            },
        }
        Ok(config)
    }

    /// Reads the settings from the text of a settings file.
    pub fn parse(text: &str) -> (config: Result<Config, ConfigError>)
        ensures
            match config {
                Ok(found) => match toml_entry(text@, "path"@) {
                    Some(EntryView::Text(path)) => found.path.is_some() && found.path.unwrap()@
                        == path,
                    Some(EntryView::Other) => found.path.is_none(),
                    _ => false,
                },
                Err(ConfigError::NoPath) => toml_entry(text@, "path"@) == Some(EntryView::Missing),
                Err(ConfigError::Parse(_)) => toml_entry(text@, "path"@).is_none(),
            },
    {
        match lookup(text, "path") {
            Ok(entry) => Config::from_entry(entry),
            Err(error) => Err(ConfigError::Parse(error)),
        }
    }
}

/// The condition on the date in the query for a time frame: one for each
/// end that is given.
pub open spec fn date_condition(from_start: bool, to_end: bool) -> Seq<char> {
    if from_start && to_end {
        " WHERE date >= @sdate AND date < @edate"@
    } else if from_start {
        " WHERE date >= @sdate"@
    } else if to_end {
        " WHERE date < @edate"@
    } else {
        Seq::empty()
    }
}

/// The condition on the job, which comes after the one on the date where
/// there is one.
pub open spec fn job_condition(after_dates: bool, by_job: bool) -> Seq<char> {
    if !by_job {
        Seq::empty()
    } else if after_dates {
        " AND job LIKE @job"@
    } else {
        " WHERE job LIKE @job"@
    }
}

/// The query for the entries of a time frame, in the order of their dates.
/// The values go in as the parameters `@sdate`, `@edate` and `@job`, each
/// of which the query names only where its condition is asked for.
pub open spec fn entries_query_text(from_start: bool, to_end: bool, by_job: bool) -> Seq<char> {
    "SELECT id, job, date, hours FROM entry"@ + date_condition(from_start, to_end)
        + job_condition(from_start || to_end, by_job) + " ORDER BY date"@
}

/// Writes the query for a time frame.
pub fn entries_query(from_start: bool, to_end: bool, by_job: bool) -> (query: String)
    ensures
        query@ == entries_query_text(from_start, to_end, by_job),
{
    let mut query: String = String::from_str("SELECT id, job, date, hours FROM entry");
    let ghost select = query@;
    if from_start && to_end {
        query.append(" WHERE date >= @sdate AND date < @edate");
    } else if from_start {
        query.append(" WHERE date >= @sdate");
    } else if to_end {
        query.append(" WHERE date < @edate");
    }
    assert(query@ =~= select + date_condition(from_start, to_end));
    let ghost dated = query@;
    if by_job {
        if from_start || to_end {
            query.append(" AND job LIKE @job");
        } else {
            query.append(" WHERE job LIKE @job");
        }
    }
    assert(query@ =~= dated + job_condition(from_start || to_end, by_job));
    query.append(" ORDER BY date");
    query
}

} // verus!
