//! The store of project definitions: one SQLite table keyed by project name.

use vstd::prelude::*;
use vstd::string::{StrSliceExecFns, StringExecFns};

verus! {

/// rusqlite's handle on an open database, carried through unopened.
#[verifier::external_type_specification]
#[verifier::external_body]
pub struct ExConnection(rusqlite::Connection);

/// rusqlite's error, carried through unopened.
#[verifier::external_type_specification]
#[verifier::external_body]
pub struct ExSqlError(rusqlite::Error);

/// A project definition: its unique name, working directory, description
/// and the npm script that runs it.
#[derive(Clone, Debug)]
pub struct Project {
    pub name: String,
    pub path: String,
    pub desc: String,
    pub script: String,
}

/// Why the store refused an operation.
#[derive(Debug)]
pub enum ProjectError {
    /// The name holds nothing but white space.
    EmptyName,
    /// The path holds nothing but white space.
    EmptyPath,
    /// A project with this name is already stored.
    AlreadyExists,
    /// No project with this name is stored.
    NotFound,
    /// SQLite failed.
    Database(rusqlite::Error),
}

/// Creates the table of projects, keyed by name.
pub const CREATE_TABLE_SQL: &'static str = "CREATE TABLE IF NOT EXISTS projects (
            name TEXT PRIMARY KEY,
            path TEXT NOT NULL,
            desc TEXT NOT NULL,
            script TEXT NOT NULL
        )";

/// Reads every project.
pub const SELECT_ALL_SQL: &'static str = "SELECT name, path, desc, script FROM projects";

/// Whether a project of the given name is stored.
pub const EXISTS_SQL: &'static str = "SELECT EXISTS(SELECT 1 FROM projects WHERE name = ?1)";

/// Stores one project.
pub const INSERT_SQL: &'static str = "INSERT INTO projects (name, path, desc, script) VALUES (?1, ?2, ?3, ?4)";

/// Removes the project of the given name.
pub const DELETE_SQL: &'static str = "DELETE FROM projects WHERE name = ?1";

/// The characters of Unicode's White_Space property.
pub open spec fn is_white_space(c: char) -> bool {
    let u = c as u32;
    ||| 0x9 <= u <= 0xD
    ||| u == 0x20
    ||| u == 0x85
    ||| u == 0xA0
    ||| u == 0x1680
    ||| 0x2000 <= u <= 0x200A
    ||| u == 0x2028
    ||| u == 0x2029
    ||| u == 0x202F
    ||| u == 0x205F
    ||| u == 0x3000
}

/// A text that trimming leaves empty: white space only, or nothing.
pub open spec fn is_blank(s: Seq<char>) -> bool {
    forall|i: int| 0 <= i < s.len() ==> is_white_space(#[trigger] s[i])
}

/// Whether `c` is a White_Space character, as `char::is_whitespace` and
/// `str::trim` decide it.
pub fn is_whitespace_char(c: char) -> (r: bool)
    ensures
        r == is_white_space(c),
{
    let u = c as u32;
    (0x9 <= u && u <= 0xD) || u == 0x20 || u == 0x85 || u == 0xA0 || u == 0x1680
        || (0x2000 <= u && u <= 0x200A) || u == 0x2028 || u == 0x2029 || u == 0x202F
        || u == 0x205F || u == 0x3000
}

/// Whether `s` is blank, as `s.trim().is_empty()` decides it.
pub fn blank(s: &str) -> (r: bool)
    ensures
        r == is_blank(s@),
{
    let n = s.unicode_len();
    let mut i: usize = 0;
    while i < n
        invariant
            n == s@.len(),
            i <= n,
            forall|j: int| 0 <= j < i ==> is_white_space(#[trigger] s@[j]),
        decreases n - i,
    {
        if !is_whitespace_char(s.get_char(i)) {
            return false;
        }
        i = i + 1;
    }
    true
}

/// The checks a project passes before it is stored: a name, then a path,
/// that are not blank.
pub fn validate_project(project: &Project) -> (r: Result<(), ProjectError>)
    ensures
        is_blank(project.name@) ==> r matches Err(ProjectError::EmptyName),
        !is_blank(project.name@) && is_blank(project.path@) ==> r matches Err(ProjectError::EmptyPath),
        !is_blank(project.name@) && !is_blank(project.path@) ==> r is Ok,
{
    if blank(project.name.as_str()) {
        return Err(ProjectError::EmptyName);
    }
    if blank(project.path.as_str()) {
        return Err(ProjectError::EmptyPath);
    }
    Ok(())
}

/// Whether `project` may be added, given the answer of the query for a
/// stored project of its name: the checks of `validate_project`, then no
/// duplicate. A failed query counts as no duplicate; the table's primary key
/// still refuses a second row of one name.
pub fn admit_project(project: &Project, exists: Result<bool, rusqlite::Error>) -> (r: Result<(), ProjectError>)
    ensures
        is_blank(project.name@) ==> r matches Err(ProjectError::EmptyName),
        !is_blank(project.name@) && is_blank(project.path@) ==> r matches Err(ProjectError::EmptyPath),
        !is_blank(project.name@) && !is_blank(project.path@) && exists == Ok::<bool, rusqlite::Error>(true)
            ==> r matches Err(ProjectError::AlreadyExists),
        !is_blank(project.name@) && !is_blank(project.path@) && exists != Ok::<bool, rusqlite::Error>(true) ==> r is Ok,
{
    match validate_project(project) {
        Err(e) => Err(e),
        Ok(()) => {
            match exists {
                Ok(true) => Err(ProjectError::AlreadyExists),
                _ => Ok(()),
            }
        },
    }
}

/// The parameters of a statement keyed by one project name.
pub fn key_values(name: &str) -> (r: Vec<String>)
    ensures
        r@.len() == 1,
        r@[0]@ == name@,
{
    vec![<String as StringExecFns>::from_str(name)]
}

/// The parameters of the insert of `project`, in the order of its columns.
pub fn insert_values(project: Project) -> (r: Vec<String>)
    ensures
        r@ == seq![project.name, project.path, project.desc, project.script],
{
    let r = vec![project.name, project.path, project.desc, project.script];
    assert(r@ =~= seq![project.name, project.path, project.desc, project.script]);
    r
}

/// The answer to a delete, given how many rows the statement removed.
pub fn deletion_outcome(affected: Result<usize, rusqlite::Error>) -> (r: Result<(), ProjectError>)
    ensures
        match affected {
            Ok(n) => (n == 0 ==> r matches Err(ProjectError::NotFound)) && (n > 0 ==> r is Ok),
            Err(e) => r == Err::<(), ProjectError>(ProjectError::Database(e)),
        },
{
    match affected {
        Ok(n) => {
            if n == 0 {
                Err(ProjectError::NotFound)
            } else {
                Ok(())
            }
        },
        Err(e) => Err(ProjectError::Database(e)),
    }
}

/// The projects that the rows `(name, path, desc, script)` describe, in
/// the order of the rows.
pub fn projects_from_rows(rows: &Vec<(String, String, String, String)>) -> (r: Vec<Project>)
    ensures
        r.len() == rows.len(),
        forall|i: int| 0 <= i < r.len() ==> ({
            let p = #[trigger] r[i];
            let row = rows[i];
            &&& p.name == row.0
            &&& p.path == row.1
            &&& p.desc == row.2
            &&& p.script == row.3
        }),
{
    let mut r: Vec<Project> = Vec::new();
    let mut i: usize = 0;
    while i < rows.len()
        invariant
            i <= rows.len(),
            r.len() == i,
            forall|j: int| 0 <= j < i ==> ({
                let p = #[trigger] r[j];
                let row = rows[j];
                &&& p.name == row.0
                &&& p.path == row.1
                &&& p.desc == row.2
                &&& p.script == row.3
            }),
        decreases rows.len() - i,
    {
        let row = &rows[i];
        r.push(Project { name: row.0.clone(), path: row.1.clone(), desc: row.2.clone(), script: row.3.clone() });
        i = i + 1;
    }
    r
}

/// Relies on rusqlite's Connection::execute: runs one statement with the
/// texts `args` bound to its parameters, and answers how many rows changed.
#[verifier::external_body]
fn execute_statement(conn: &rusqlite::Connection, sql: &str, args: &Vec<String>) -> (r: Result<usize, rusqlite::Error>) {
    conn.execute(sql, rusqlite::params_from_iter(args.iter()))
}

/// Relies on rusqlite's Connection::query_row and Row::get: runs a query with
/// the texts `args` bound and reads its first row's first column as a boolean.
#[verifier::external_body]
fn query_flag(conn: &rusqlite::Connection, sql: &str, args: &Vec<String>) -> (r: Result<bool, rusqlite::Error>) {
    conn.query_row(sql, rusqlite::params_from_iter(args.iter()), |row| row.get(0))
}

/// Relies on rusqlite's Connection::prepare, Statement::query_map and
/// Row::get: runs a query without parameters and reads the first four
/// columns of each row as texts, in the order SQLite returns the rows.
#[verifier::external_body]
fn query_text_rows(conn: &rusqlite::Connection, sql: &str) -> (r: Result<Vec<(String, String, String, String)>, rusqlite::Error>) {
    let mut stmt = conn.prepare(sql)?;
    let rows = stmt.query_map([], |row| Ok((row.get(0)?, row.get(1)?, row.get(2)?, row.get(3)?)))?;
    rows.collect()
}

/// Creates the projects table if it does not exist yet.
pub fn init_database(conn: &rusqlite::Connection) -> (r: Result<(), rusqlite::Error>) {
    let no_args: Vec<String> = Vec::new();
    match execute_statement(conn, CREATE_TABLE_SQL, &no_args) {
        Ok(_) => Ok(()),
        Err(e) => Err(e),
    }
}

/// Every stored project, in the order SQLite returns them.
pub fn get_projects(conn: &rusqlite::Connection) -> (r: Result<Vec<Project>, ProjectError>)
    ensures
        r is Err ==> r->Err_0 is Database,
{
    match query_text_rows(conn, SELECT_ALL_SQL) {
        Ok(rows) => Ok(projects_from_rows(&rows)),
        Err(e) => Err(ProjectError::Database(e)),
    }
}

/// Stores `project`, unless its name or path is blank or its name is taken.
/// Each of the library's own errors comes exactly on the inputs stated.
pub fn add_project(conn: &rusqlite::Connection, project: Project) -> (r: Result<(), ProjectError>)
    ensures
        is_blank(project.name@) ==> r matches Err(ProjectError::EmptyName),
        !is_blank(project.name@) && is_blank(project.path@) ==> r matches Err(ProjectError::EmptyPath),
        r matches Err(ProjectError::EmptyName) ==> is_blank(project.name@),
        r matches Err(ProjectError::EmptyPath) ==> !is_blank(project.name@) && is_blank(project.path@),
        r matches Err(ProjectError::AlreadyExists) ==> !is_blank(project.name@) && !is_blank(project.path@),
        !(r matches Err(ProjectError::NotFound)),
        r is Ok ==> !is_blank(project.name@) && !is_blank(project.path@),
{
    match validate_project(&project) {
        Err(e) => {
            return Err(e);
        },
        Ok(()) => {},
    }
    let key = key_values(project.name.as_str());
    let exists = query_flag(conn, EXISTS_SQL, &key);
    match admit_project(&project, exists) {
        Err(e) => {
            return Err(e);
        },
        Ok(()) => {},
    }
    let values = insert_values(project);
    match execute_statement(conn, INSERT_SQL, &values) {
        Ok(_) => Ok(()),
        Err(e) => Err(ProjectError::Database(e)),
    }
}

/// Removes the project called `name`; `NotFound` when none is stored.
pub fn delete_project(conn: &rusqlite::Connection, name: &str) -> (r: Result<(), ProjectError>)
    ensures
        r is Err ==> (r->Err_0 is NotFound || r->Err_0 is Database),
{
    let key = key_values(name);
    deletion_outcome(execute_statement(conn, DELETE_SQL, &key))
}

} // verus!
