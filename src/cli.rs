use vstd::prelude::*;
use crate::dispatch::text3;
use crate::text::{ends_with, has_suffix, lower_of, same_text, to_lower};
use crate::validation::text_result;

verus! {

/// Command-line settings: the target database, by URL or by name, the
/// server address, and the command to run.
#[derive(Debug, Clone)]
pub struct Cli {
    pub database_url: Option<String>,
    pub database_name: Option<String>,
    pub server_address: String,
    pub verbose: bool,
    pub command: Commands,
}

#[derive(Debug, Clone)]
pub enum Commands {
    Server { command: ServerCommands },
    Query { sql: String, format: String, database: Option<String> },
    Insert { table: String, data: String, database: Option<String> },
    Update { table: String, data: String, where_clause: String, database: Option<String> },
    Delete { table: String, where_clause: String, database: Option<String> },
    Schema { command: SchemaCommands },
}

#[derive(Debug, Clone)]
pub enum ServerCommands {
    Start { bind_address: String },
    Stop,
    Status,
    AddDatabase { name: String, url: String },
    CreateTable { name: String, columns: String },
    CreateDatabase { name: String },
    CreateFromSchema { schema_file: String, database_name: Option<String> },
}

#[derive(Debug, Clone)]
pub enum SchemaCommands {
    ListTables { database: Option<String> },
    Describe { tables: Vec<String>, database: Option<String> },
    Stats { database: Option<String>, detailed: bool },
    Show { database: Option<String>, format: String },
}

/// The file name that a database name stands for, compared in lower case.
pub open spec fn db_file_matches(file: Seq<char>, name: Seq<char>) -> bool {
    lower_of(file) == lower_of(name) + ".db"@
}

/// The URL of the database file for `name`: the first of `files` that
/// matches it in any letter case, else `<name>.db`.
pub open spec fn db_url_for(name: Seq<char>, files: Seq<Seq<char>>) -> Seq<char>
    decreases files.len(),
{
    if files.len() == 0 {
        "sqlite://"@ + name + ".db"@
    } else if db_file_matches(files[0], name) {
        "sqlite://"@ + files[0]
    } else {
        db_url_for(name, files.drop_first())
    }
}

pub open spec fn text_seq(v: Seq<String>) -> Seq<Seq<char>> {
    v.map_values(|s: String| s@)
}

/// The URL of the database file for `name` among the files of a directory.
pub fn find_or_create_db_url_among(name: &str, files: &Vec<String>) -> (r: String)
    ensures
        r@ == db_url_for(name@, text_seq(files@)),
{
    let name_lower = to_lower(name);
    let wanted = text3(name_lower.as_str(), ".db", "");
    proof {
        reveal_strlit("");
        assert(wanted@ =~= lower_of(name@) + ".db"@);
        assert(text_seq(files@).subrange(0, files@.len() as int) =~= text_seq(files@));
    }
    let mut i: usize = 0;
    while i < files.len()
        invariant
            i <= files.len(),
            wanted@ == lower_of(name@) + ".db"@,
            db_url_for(name@, text_seq(files@)) == db_url_for(
                name@,
                text_seq(files@).subrange(i as int, files@.len() as int),
            ),
        decreases files.len() - i,
    {
        let ghost rest = text_seq(files@).subrange(i as int, files@.len() as int);
        let file_lower = to_lower(files[i].as_str());
        if same_text(file_lower.as_str(), wanted.as_str()) {
            let r = text3("sqlite://", files[i].as_str(), "");
            proof {
                assert(rest.len() > 0);
                assert(rest[0] == files@[i as int]@);
                assert(db_file_matches(rest[0], name@));
                reveal_strlit("");
                assert(""@ =~= Seq::<char>::empty());
                assert(r@ =~= "sqlite://"@ + rest[0]);
            }
            return r;
        }
        proof {
            assert(rest.drop_first() =~= text_seq(files@).subrange(i + 1, files@.len() as int));
        }
        i = i + 1;
    }
    proof {
        assert(text_seq(files@).subrange(i as int, files@.len() as int) =~= Seq::empty());
    }
    text3("sqlite://", name, ".db")
}

/// A URL agrees with a name when it equals, in any letter case, the URL
/// that the name gives, or ends with `/<name>.db` in lower case.
pub open spec fn url_agrees(url: Seq<char>, name: Seq<char>, files: Seq<Seq<char>>) -> bool {
    lower_of(url) == lower_of(db_url_for(name, files)) || has_suffix(
        lower_of(url),
        "/"@ + lower_of(name) + ".db"@,
    )
}

/// The database URL that the settings give.
pub open spec fn resolved_url(
    url: Option<Seq<char>>,
    name: Option<Seq<char>>,
    files: Seq<Seq<char>>,
) -> Result<Seq<char>, Seq<char>> {
    match (url, name) {
        (Some(u), Some(n)) => if url_agrees(u, n, files) {
            Ok(u)
        } else {
            Err("Inconsistent database configuration: URL '"@ + u + "' doesn't match name '"@ + n
                + "'"@)
        },
        (Some(u), None) => Ok(u),
        (None, Some(n)) => Ok(db_url_for(n, files)),
        (None, None) => Ok("sqlite://datasink.db"@),
    }
}

pub open spec fn opt_string(s: Option<String>) -> Option<Seq<char>> {
    match s {
        Some(x) => Some(x@),
        None => None,
    }
}

/// The value of a setting: the command line first, then the environment.
pub open spec fn setting(given: Option<String>, env: Option<String>) -> Option<Seq<char>> {
    match given {
        Some(g) => Some(g@),
        None => opt_string(env),
    }
}

fn pick(given: &Option<String>, env: Option<String>) -> (r: Option<String>)
    ensures
        opt_string(r) == setting(*given, env),
{
    match given {
        Some(g) => Some(g.clone()),
        None => env,
    }
}

impl Cli {
    /// Resolves the database URL from the URL and the name, each given on the
    /// command line or else in the environment. With both, they must agree;
    /// a name alone is looked up among the files of the working directory.
    pub fn resolve_database_url_with(
        &self,
        env_url: Option<String>,
        env_name: Option<String>,
        files: &Vec<String>,
    ) -> (r: Result<String, String>)
        ensures
            text_result(r) == resolved_url(
                setting(self.database_url, env_url),
                setting(self.database_name, env_name),
                text_seq(files@),
            ),
    {
        let url = pick(&self.database_url, env_url);
        let name = pick(&self.database_name, env_name);
        match (url, name) {
            (Some(u), Some(n)) => {
                let inferred = find_or_create_db_url_among(n.as_str(), files);
                let url_lower = to_lower(u.as_str());
                let inferred_lower = to_lower(inferred.as_str());
                if !same_text(url_lower.as_str(), inferred_lower.as_str()) {
                    let name_lower = to_lower(n.as_str());
                    let tail = text3("/", name_lower.as_str(), ".db");
                    if !ends_with(url_lower.as_str(), tail.as_str()) {
                        let mut msg = text3(
                            "Inconsistent database configuration: URL '",
                            u.as_str(),
                            "' doesn't match name '",
                        );
                        msg.append(n.as_str());
                        msg.append("'");
                        return Err(msg);
                    }
                }
                Ok(u)
            },
            (Some(u), None) => Ok(u),
            (None, Some(n)) => Ok(find_or_create_db_url_among(n.as_str(), files)),
            (None, None) => Ok(String::from_str("sqlite://datasink.db")),
        }
    }
}

} // verus!
