use vstd::prelude::*;
use crate::text::{contains, contains_char, has_infix, has_prefix, starts_with};

verus! {

pub open spec fn sqlite_scheme() -> Seq<char> {
    "sqlite://"@
}

/// The text of a `Result` of strings.
pub open spec fn text_result(r: Result<String, String>) -> Result<Seq<char>, Seq<char>> {
    match r {
        Ok(s) => Ok(s@),
        Err(e) => Err(e@),
    }
}

/// The file path that a URL names, when it is an SQLite URL or a bare path.
pub open spec fn file_path_of(u: Seq<char>) -> Seq<char> {
    if has_prefix(u, sqlite_scheme()) {
        u.subrange(sqlite_scheme().len() as int, u.len() as int)
    } else {
        u
    }
}

/// A path with no extension that names no existing file gets `.db`.
pub open spec fn wants_db_suffix(path: Seq<char>, exists: bool) -> bool {
    !path.contains('.') && !exists
}

/// The normal form of a database URL, where `exists` tells whether the file
/// that the URL names exists.
pub open spec fn validated_url(u: Seq<char>, exists: bool) -> Result<Seq<char>, Seq<char>> {
    if has_prefix(u, sqlite_scheme()) {
        let path = file_path_of(u);
        if path.len() == 0 {
            Err("SQLite URL must specify a database file path"@)
        } else if wants_db_suffix(path, exists) {
            Ok(sqlite_scheme() + path + ".db"@)
        } else {
            Ok(u)
        }
    } else if has_prefix(u, "postgres://"@) || has_prefix(u, "mysql://"@) {
        Ok(u)
    } else if has_infix(u, "://"@) {
        Err("Unsupported database URL scheme: "@ + u)
    } else if wants_db_suffix(u, exists) {
        Ok(sqlite_scheme() + u + ".db"@)
    } else {
        Ok(sqlite_scheme() + u)
    }
}

/// Relies on `std::path::Path::exists`: what is on disk decides, so nothing is promised.
#[verifier::external_body]
fn path_exists(path: &str) -> bool {
    std::path::Path::new(path).exists()
}

/// The file path that a URL names.
fn file_path(url: &str) -> (r: &str)
    ensures
        r@ == file_path_of(url@),
{
    if starts_with(url, "sqlite://") {
        proof {
            reveal_strlit("sqlite://");
        }
        let n = url.unicode_len();
        url.substring_char(9, n)
    } else {
        url
    }
}

/// `prefix`, then `middle`, then `suffix`.
fn joined3(prefix: &str, middle: &str, suffix: &str) -> (r: String)
    ensures
        r@ == prefix@ + middle@ + suffix@,
{
    let mut s = String::from_str(prefix);
    s.append(middle);
    s.append(suffix);
    s
}

/// Validates and normalizes a database URL, given whether the file that it
/// names exists.
pub fn validate_database_url_with(url: &str, exists: bool) -> (r: Result<String, String>)
    ensures
        text_result(r) == validated_url(url@, exists),
{
    proof {
        reveal_strlit("");
        assert(url@ + ""@ =~= url@);
    }
    if starts_with(url, "sqlite://") {
        let path = file_path(url);
        if path.is_empty() {
            return Err(String::from_str("SQLite URL must specify a database file path"));
        }
        if !contains_char(path, '.') && !exists {
            return Ok(joined3("sqlite://", path, ".db"));
        }
        Ok(String::from_str(url))
    } else if starts_with(url, "postgres://") || starts_with(url, "mysql://") {
        Ok(String::from_str(url))
    } else if contains(url, "://") {
        Err(joined3("Unsupported database URL scheme: ", url, ""))
    } else if !contains_char(url, '.') && !exists {
        Ok(joined3("sqlite://", url, ".db"))
    } else {
        Ok(joined3("sqlite://", url, ""))
    }
}

/// Validates and normalizes a database URL, looking on disk for the file
/// that it names.
pub fn validate_database_url(url: &str) -> (r: Result<String, String>)
    ensures
        exists|e: bool| text_result(r) == validated_url(url@, e),
{
    let exists = path_exists(file_path(url));
    validate_database_url_with(url, exists)
}

/// Whether the URL is one that `validate_database_url` accepts.
pub fn is_valid_database_url(url: &str) -> (r: bool)
    ensures
        r <==> (exists|e: bool| validated_url(url@, e) is Ok),
{
    let v = validate_database_url(url);
    proof {
        // whether the URL is accepted does not depend on the file
        assert(validated_url(url@, true) is Ok <==> validated_url(url@, false) is Ok);
    }
    v.is_ok()
}

} // verus!
