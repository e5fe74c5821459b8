//! Turning lists of repositories into shell scripts that clone them.
//!
//! The lists come as CSV exports or as scripts of `git clone` lines. The
//! caller reads the files and writes the results; the functions here take
//! the bytes or lines read and return the text to write.

use vstd::prelude::*;
use vstd::string::StringExecFns;
use crate::mirror::{fits, is_within_limit, path_of, url_path};
use crate::text::{
    contains_text,
    lemma_split_first,
    occurs_in,
    replace_text,
    replaced,
    split_at_first,
    split_first,
};

verus! {

/// What a `git clone` line begins with.
pub const CLONE_PREFIX: &'static str = "git clone ";

/// The host name that tells a GitHub address from others.
pub const GITHUB_HOST: &'static str = "github.com";

/// The rows of the CSV text `data` after its header row, each a list of
/// fields, as the `csv` crate reads them with its default settings; `None`
/// where it reports an error in any row.
pub uninterp spec fn csv_rows(data: Seq<u8>) -> Option<Seq<Seq<Seq<char>>>>;

/// Why a list could not be converted.
#[derive(Clone, Copy, Debug, PartialEq, Eq, Structural)]
pub enum ScriptError {
    /// The CSV text could not be read.
    BadCsv,
    /// An address is too long to be parsed.
    TooLong,
    /// An address is not an absolute URL.
    NotAUrl,
    /// The path of an address does not name an owner and a repository.
    NoRepository,
}

/// Reads CSV text with `csv::ReaderBuilder::new().from_reader(..)` and its
/// `records()`, and copies each record's fields: the rows named `csv_rows`.
#[verifier::external_body]
fn parse_rows(data: &[u8]) -> (rows: Option<Vec<Vec<String>>>)
    ensures
        rows.deep_view() == csv_rows(data@),
{
    let mut reader = csv::ReaderBuilder::new().from_reader(data);
    let mut rows = Vec::new();
    for record in reader.records() {
        rows.push(record.ok()?.iter().map(|field| field.to_owned()).collect());
    }
    Some(rows)
}

/// The field at `index` of a row, empty where the row is shorter.
pub open spec fn field_of(row: Seq<Seq<char>>, index: int) -> Seq<char> {
    if 0 <= index < row.len() {
        row[index]
    } else {
        Seq::empty()
    }
}

/// Returns the field at `index` of a row, or the empty text where the row
/// has no such field.
pub fn field(row: &Vec<String>, index: usize) -> (out: &str)
    ensures
        out@ == field_of(row.deep_view(), index as int),
{
    if index < row.len() {
        proof {
            assert(row.deep_view()[index as int] == row[index as int]@);
        }
        row[index].as_str()
    } else {
        proof {
            reveal_strlit("");
            assert(""@ =~= Seq::<char>::empty());
        }
        ""
    }
}

/// The line that clones `url`.
pub open spec fn clone_line(url: Seq<char>) -> Seq<char> {
    CLONE_PREFIX@ + url + "\n"@
}

/// Writes the line that clones `url`.
pub fn clone_command(url: &str) -> (line: String)
    ensures
        line@ == clone_line(url@),
{
    String::from_str(CLONE_PREFIX).concat(url).concat("\n")
}

/// Clone scripts sorted by where the repositories are hosted.
#[derive(Debug, PartialEq, Eq)]
pub struct OriginScripts {
    /// The clone lines of the addresses on GitHub.
    pub github: String,
    /// The clone lines of all other addresses.
    pub other: String,
}

/// Mathematical value of [`OriginScripts`].
pub struct OriginScriptsView {
    pub github: Seq<char>,
    pub other: Seq<char>,
}

impl View for OriginScripts {
    type V = OriginScriptsView;

    open spec fn view(&self) -> OriginScriptsView {
        OriginScriptsView { github: self.github@, other: self.other@ }
    }
}

/// The scripts after one more row: a row whose first field is empty adds
/// nothing; any other adds its clone line to the GitHub script if the field
/// holds the GitHub host name, else to the other script.
pub open spec fn origin_scripts_with(scripts: OriginScriptsView, row: Seq<Seq<char>>) -> OriginScriptsView {
    let url = field_of(row, 0);
    if url.len() == 0 {
        scripts
    } else if occurs_in(url, GITHUB_HOST@) {
        OriginScriptsView { github: scripts.github + clone_line(url), ..scripts }
    } else {
        OriginScriptsView { other: scripts.other + clone_line(url), ..scripts }
    }
}

/// The two clone scripts of a list of rows, the rows taken in order.
pub open spec fn origin_scripts(rows: Seq<Seq<Seq<char>>>) -> OriginScriptsView
    decreases rows.len(),
{
    if rows.len() == 0 {
        OriginScriptsView { github: Seq::empty(), other: Seq::empty() }
    } else {
        origin_scripts_with(origin_scripts(rows.drop_last()), rows.last())
    }
}

/// Builds the two clone scripts of a list of rows whose first field is the
/// address of a repository.
pub fn origin_scripts_of(rows: &Vec<Vec<String>>) -> (out: OriginScripts)
    ensures
        out@ == origin_scripts(rows.deep_view()),
{
    let mut github = String::new();
    let mut other = String::new();
    let mut i: usize = 0;
    while i < rows.len()
        invariant
            i <= rows.len(),
            (OriginScriptsView { github: github@, other: other@ }) == origin_scripts(
                rows.deep_view().take(i as int),
            ),
        decreases rows.len() - i,
    {
        proof {
            let upto = rows.deep_view().take(i + 1);
            assert(upto.drop_last() =~= rows.deep_view().take(i as int));
            assert(upto.last() == rows[i as int].deep_view());
        }
        let url = field(&rows[i], 0);
        if !url.is_empty() {
            let line = clone_command(url);
            if contains_text(url, GITHUB_HOST) {
                github.append(line.as_str());
            } else {
                other.append(line.as_str());
            }
        }
        i += 1;
    }
    proof {
        assert(rows.deep_view().take(rows.len() as int) =~= rows.deep_view());
    }
    OriginScripts { github, other }
}

/// Converts a CSV export whose first column holds repository addresses
/// into two clone scripts, one for GitHub and one for the rest.
pub fn convert_origin(data: &[u8]) -> (out: Result<OriginScripts, ScriptError>)
    ensures
        match out {
            Ok(scripts) => csv_rows(data@) is Some && scripts@ == origin_scripts(
                csv_rows(data@)->Some_0,
            ),
            Err(e) => csv_rows(data@) is None && e == ScriptError::BadCsv,
        },
{
    match parse_rows(data) {
        Some(rows) => Ok(origin_scripts_of(&rows)),
        None => Err(ScriptError::BadCsv),
    }
}

/// The line that makes the directory `owner` and clones `url` into it.
pub open spec fn owner_clone_line(owner: Seq<char>, url: Seq<char>) -> Seq<char> {
    "mkdir -p "@ + owner + " && git clone "@ + url + " ./"@ + owner + "\n"@
}

/// Writes the line that makes the directory `owner` and clones `url` into
/// it.
pub fn owner_clone_command(owner: &str, url: &str) -> (line: String)
    ensures
        line@ == owner_clone_line(owner@, url@),
{
    String::from_str("mkdir -p ").concat(owner).concat(" && git clone ").concat(url).concat(
        " ./",
    ).concat(owner).concat("\n")
}

/// The script after one more row: a row adds its line where both its first
/// field, the owner, and its third, the address, are not empty.
pub open spec fn owner_script_with(script: Seq<char>, row: Seq<Seq<char>>) -> Seq<char> {
    let owner = field_of(row, 0);
    let url = field_of(row, 2);
    if url.len() != 0 && owner.len() != 0 {
        script + owner_clone_line(owner, url)
    } else {
        script
    }
}

/// The script that clones each repository of a list of rows into the
/// directory of its owner, the rows taken in order.
pub open spec fn owner_script(rows: Seq<Seq<Seq<char>>>) -> Seq<char>
    decreases rows.len(),
{
    if rows.len() == 0 {
        Seq::empty()
    } else {
        owner_script_with(owner_script(rows.drop_last()), rows.last())
    }
}

/// Builds the script that clones each repository of a list of rows into the
/// directory of its owner.
pub fn owner_script_of(rows: &Vec<Vec<String>>) -> (out: String)
    ensures
        out@ == owner_script(rows.deep_view()),
{
    let mut out = String::new();
    let mut i: usize = 0;
    while i < rows.len()
        invariant
            i <= rows.len(),
            out@ == owner_script(rows.deep_view().take(i as int)),
        decreases rows.len() - i,
    {
        proof {
            let upto = rows.deep_view().take(i + 1);
            assert(upto.drop_last() =~= rows.deep_view().take(i as int));
            assert(upto.last() == rows[i as int].deep_view());
        }
        let owner = field(&rows[i], 0);
        let url = field(&rows[i], 2);
        if !url.is_empty() && !owner.is_empty() {
            let line = owner_clone_command(owner, url);
            out.append(line.as_str());
        }
        i += 1;
    }
    proof {
        assert(rows.deep_view().take(rows.len() as int) =~= rows.deep_view());
    }
    out
}

/// Converts a CSV export whose first column holds owners and whose third
/// holds repository addresses into a script that clones each repository
/// into the directory of its owner.
pub fn convert0817(data: &[u8]) -> (out: Result<String, ScriptError>)
    ensures
        match out {
            Ok(script) => csv_rows(data@) is Some && script@ == owner_script(
                csv_rows(data@)->Some_0,
            ),
            Err(e) => csv_rows(data@) is None && e == ScriptError::BadCsv,
        },
{
    match parse_rows(data) {
        Some(rows) => Ok(owner_script_of(&rows)),
        None => Err(ScriptError::BadCsv),
    }
}

/// The piece of `text` before its first `/`, or all of it where it holds
/// none.
pub open spec fn head_piece(text: Seq<char>) -> Seq<char> {
    match split_first(text, '/') {
        Some((before, _)) => before,
        None => text,
    }
}

/// The first segment of a URL path: what stands between the `/` that the
/// path begins with and the next; `None` where the path does not begin with
/// `/`.
pub open spec fn first_segment(path: Seq<char>) -> Option<Seq<char>> {
    match split_first(path, '/') {
        Some((before, after)) => if before.len() == 0 {
            Some(head_piece(after))
        } else {
            None
        },
        None => None,
    }
}

/// Returns the piece of `text` before its first `/`; it holds no `/`.
pub fn head_piece_of(text: &str) -> (out: &str)
    ensures
        out@ == head_piece(text@),
        !out@.contains('/'),
{
    proof {
        lemma_split_first(text@, '/');
    }
    match split_at_first(text, '/') {
        Some((before, _)) => before,
        None => text,
    }
}

/// Returns the first segment of a URL path.
pub fn first_segment_of(path: &str) -> (out: Option<&str>)
    ensures
        match out {
            Some(segment) => first_segment(path@) == Some(segment@),
            None => first_segment(path@) is None,
        },
{
    match split_at_first(path, '/') {
        Some((before, after)) => if before.is_empty() {
            Some(head_piece_of(after))
        } else {
            None
        },
        None => None,
    }
}

/// The owner of the repository at `url`: the first segment of its path.
pub open spec fn owner_in(url: Seq<char>) -> Result<Seq<char>, ScriptError> {
    if !fits(url) {
        Err(ScriptError::TooLong)
    } else {
        match url_path(url) {
            None => Err(ScriptError::NotAUrl),
            Some(path) => match first_segment(path) {
                None => Err(ScriptError::NoRepository),
                Some(owner) => Ok(owner),
            },
        }
    }
}

/// Returns the owner of the repository at `url`.
pub fn owner_of(url: &str) -> (out: Result<String, ScriptError>)
    ensures
        match out {
            Ok(owner) => owner_in(url@) == Ok::<Seq<char>, ScriptError>(owner@),
            Err(e) => owner_in(url@) == Err::<Seq<char>, ScriptError>(e),
        },
{
    if !is_within_limit(url) {
        return Err(ScriptError::TooLong);
    }
    let path = match path_of(url) {
        Some(path) => path,
        None => return Err(ScriptError::NotAUrl),
    };
    match first_segment_of(path.as_str()) {
        Some(owner) => Ok(String::from_str(owner)),
        None => Err(ScriptError::NoRepository),
    }
}

/// The line that lists `url` behind its owner.
pub open spec fn owner_list_line(owner: Seq<char>, url: Seq<char>) -> Seq<char> {
    owner + ","@ + url + "\n"@
}

/// The list after one more row: a row whose tenth field is empty or does
/// not hold the GitHub host name adds nothing; any other adds the line of
/// its address, or ends the list with the reason why the address has no
/// owner.
pub open spec fn owner_list_with(list: Result<Seq<char>, ScriptError>, row: Seq<Seq<char>>) -> Result<
    Seq<char>,
    ScriptError,
> {
    let url = field_of(row, 9);
    match list {
        Err(e) => Err(e),
        Ok(text) => if url.len() == 0 || !occurs_in(url, GITHUB_HOST@) {
            Ok(text)
        } else {
            match owner_in(url) {
                Err(e) => Err(e),
                Ok(owner) => Ok(text + owner_list_line(owner, url)),
            }
        },
    }
}

/// The list of owners and addresses of a list of rows, the rows taken in
/// order, or the reason why the first row that has none has none.
pub open spec fn owner_list(rows: Seq<Seq<Seq<char>>>) -> Result<Seq<char>, ScriptError>
    decreases rows.len(),
{
    if rows.len() == 0 {
        Ok(Seq::empty())
    } else {
        owner_list_with(owner_list(rows.drop_last()), rows.last())
    }
}

/// A list that failed on its first rows fails in the same way on all.
pub proof fn lemma_owner_list_fails(rows: Seq<Seq<Seq<char>>>, upto: int)
    requires
        0 <= upto <= rows.len(),
        owner_list(rows.take(upto)) is Err,
    ensures
        owner_list(rows) == owner_list(rows.take(upto)),
    decreases rows.len() - upto,
{
    if upto < rows.len() {
        assert(rows.take(upto + 1).drop_last() =~= rows.take(upto));
        lemma_owner_list_fails(rows, upto + 1);
    } else {
        assert(rows.take(upto) =~= rows);
    }
}

/// Builds the list of owners and addresses of the rows whose tenth field is
/// an address on GitHub.
pub fn owner_list_of(rows: &Vec<Vec<String>>) -> (out: Result<String, ScriptError>)
    ensures
        match out {
            Ok(list) => owner_list(rows.deep_view()) == Ok::<Seq<char>, ScriptError>(list@),
            Err(e) => owner_list(rows.deep_view()) == Err::<Seq<char>, ScriptError>(e),
        },
{
    let mut out = String::new();
    let mut i: usize = 0;
    while i < rows.len()
        invariant
            i <= rows.len(),
            owner_list(rows.deep_view().take(i as int)) == Ok::<Seq<char>, ScriptError>(out@),
        decreases rows.len() - i,
    {
        proof {
            let upto = rows.deep_view().take(i + 1);
            assert(upto.drop_last() =~= rows.deep_view().take(i as int));
            assert(upto.last() == rows[i as int].deep_view());
        }
        let url = field(&rows[i], 9);
        if !url.is_empty() && contains_text(url, GITHUB_HOST) {
            match owner_of(url) {
                Ok(owner) => {
                    let line = owner.concat(",").concat(url).concat("\n");
                    out.append(line.as_str());
                },
                Err(e) => {
                    proof {
                        lemma_owner_list_fails(rows.deep_view(), i + 1);
                    }
                    return Err(e);
                },
            }
        }
        i += 1;
    }
    proof {
        assert(rows.deep_view().take(rows.len() as int) =~= rows.deep_view());
    }
    Ok(out)
}

/// Converts a CSV export whose tenth column holds repository addresses into
/// a list of lines, each the owner and the address of a repository on
/// GitHub.
pub fn convert_cratesio_csv(data: &[u8]) -> (out: Result<String, ScriptError>)
    ensures
        match out {
            Ok(list) => csv_rows(data@) is Some && owner_list(csv_rows(data@)->Some_0) == Ok::<
                Seq<char>,
                ScriptError,
            >(list@),
            Err(e) => match csv_rows(data@) {
                None => e == ScriptError::BadCsv,
                Some(rows) => owner_list(rows) == Err::<Seq<char>, ScriptError>(e),
            },
        },
{
    match parse_rows(data) {
        Some(rows) => owner_list_of(&rows),
        None => Err(ScriptError::BadCsv),
    }
}

/// A repository named by its owner and its own name.
#[derive(Debug, PartialEq, Eq)]
pub struct Repository {
    pub owner: String,
    pub name: String,
}

/// Mathematical value of a [`Repository`].
pub struct RepositoryView {
    pub owner: Seq<char>,
    pub name: Seq<char>,
}

impl View for Repository {
    type V = RepositoryView;

    open spec fn view(&self) -> RepositoryView {
        RepositoryView { owner: self.owner@, name: self.name@ }
    }
}

impl DeepView for Repository {
    type V = RepositoryView;

    open spec fn deep_view(&self) -> RepositoryView {
        self@
    }
}

/// Owner and name in a URL path, the second and third of the pieces that
/// its `/` cut it into; `None` where there are fewer than three pieces.
pub open spec fn repository_in_path(path: Seq<char>) -> Option<RepositoryView> {
    match split_first(path, '/') {
        None => None,
        Some((_, rest)) => match split_first(rest, '/') {
            None => None,
            Some((owner, rest)) => Some(RepositoryView { owner, name: head_piece(rest) }),
        },
    }
}

/// The repository that a `git clone` line names: the line without the
/// command is a URL, and its path holds owner and name.
pub open spec fn repository_in_line(line: Seq<char>) -> Result<RepositoryView, ScriptError> {
    let url = replaced(line, CLONE_PREFIX@, Seq::empty());
    if !fits(url) {
        Err(ScriptError::TooLong)
    } else {
        match url_path(url) {
            None => Err(ScriptError::NotAUrl),
            Some(path) => match repository_in_path(path) {
                None => Err(ScriptError::NoRepository),
                Some(repository) => Ok(repository),
            },
        }
    }
}

/// Returns owner and name in a URL path; neither holds a `/`.
pub fn repository_of_path(path: &str) -> (out: Option<Repository>)
    ensures
        match out {
            Some(repository) => repository_in_path(path@) == Some(repository@)
                && !repository@.owner.contains('/') && !repository@.name.contains('/'),
            None => repository_in_path(path@) is None,
        },
{
    proof {
        lemma_split_first(path@, '/');
        if split_first(path@, '/') is Some {
            let rest = split_first(path@, '/')->Some_0.1;
            lemma_split_first(rest, '/');
            if split_first(rest, '/') is Some {
                lemma_split_first(split_first(rest, '/')->Some_0.1, '/');
            }
        }
    }
    let rest = match split_at_first(path, '/') {
        Some((_, rest)) => rest,
        None => return None,
    };
    match split_at_first(rest, '/') {
        Some((owner, rest)) => Some(
            Repository { owner: String::from_str(owner), name: String::from_str(head_piece_of(rest)) },
        ),
        None => None,
    }
}

/// Returns the repository that a `git clone` line names.
pub fn repository_of_line(line: &str) -> (out: Result<Repository, ScriptError>)
    ensures
        match out {
            Ok(repository) => repository_in_line(line@) == Ok::<RepositoryView, ScriptError>(
                repository@,
            ),
            Err(e) => repository_in_line(line@) == Err::<RepositoryView, ScriptError>(e),
        },
{
    proof {
        reveal_strlit("git clone ");
        reveal_strlit("");
        assert(""@ =~= Seq::<char>::empty());
    }
    let url = replace_text(line, CLONE_PREFIX, "");
    if !is_within_limit(url.as_str()) {
        return Err(ScriptError::TooLong);
    }
    let path = match path_of(url.as_str()) {
        Some(path) => path,
        None => return Err(ScriptError::NotAUrl),
    };
    match repository_of_path(path.as_str()) {
        Some(repository) => Ok(repository),
        None => Err(ScriptError::NoRepository),
    }
}

/// The repositories that the lines of a clone script name, in order, or the
/// reason why the first line that names none names none.
pub open spec fn repositories(lines: Seq<Seq<char>>) -> Result<Seq<RepositoryView>, ScriptError>
    decreases lines.len(),
{
    if lines.len() == 0 {
        Ok(Seq::empty())
    } else {
        match repositories(lines.drop_last()) {
            Err(e) => Err(e),
            Ok(found) => match repository_in_line(lines.last()) {
                Err(e) => Err(e),
                Ok(repository) => Ok(found.push(repository)),
            },
        }
    }
}

/// A script that failed on its first lines fails in the same way on all.
pub proof fn lemma_repositories_fail(lines: Seq<Seq<char>>, upto: int)
    requires
        0 <= upto <= lines.len(),
        repositories(lines.take(upto)) is Err,
    ensures
        repositories(lines) == repositories(lines.take(upto)),
    decreases lines.len() - upto,
{
    if upto < lines.len() {
        assert(lines.take(upto + 1).drop_last() =~= lines.take(upto));
        lemma_repositories_fail(lines, upto + 1);
    } else {
        assert(lines.take(upto) =~= lines);
    }
}

/// Where every line names a repository, there is one repository for each
/// line.
pub proof fn lemma_repositories_len(lines: Seq<Seq<char>>)
    ensures
        repositories(lines) matches Ok(found) ==> found.len() == lines.len(),
    decreases lines.len(),
{
    if lines.len() > 0 {
        lemma_repositories_len(lines.drop_last());
    }
}

/// Reads the repositories that the lines of a clone script name.
pub fn repositories_of(lines: &Vec<String>) -> (out: Result<Vec<Repository>, ScriptError>)
    ensures
        match out {
            Ok(found) => repositories(lines.deep_view()) == Ok::<Seq<RepositoryView>, ScriptError>(
                found.deep_view(),
            ),
            Err(e) => repositories(lines.deep_view()) == Err::<Seq<RepositoryView>, ScriptError>(e),
        },
{
    let mut found: Vec<Repository> = Vec::new();
    let mut i: usize = 0;
    proof {
        assert(found.deep_view() =~= Seq::<RepositoryView>::empty());
    }
    while i < lines.len()
        invariant
            i <= lines.len(),
            repositories(lines.deep_view().take(i as int)) == Ok::<Seq<RepositoryView>, ScriptError>(
                found.deep_view(),
            ),
        decreases lines.len() - i,
    {
        proof {
            let upto = lines.deep_view().take(i + 1);
            assert(upto.drop_last() =~= lines.deep_view().take(i as int));
            assert(upto.last() == lines[i as int]@);
        }
        match repository_of_line(lines[i].as_str()) {
            Ok(repository) => {
                let ghost before = found.deep_view();
                found.push(repository);
                proof {
                    assert(found.deep_view() =~= before.push(repository@));
                }
            },
            Err(e) => {
                proof {
                    lemma_repositories_fail(lines.deep_view(), i + 1);
                }
                return Err(e);
            },
        }
        i += 1;
    }
    proof {
        assert(lines.deep_view().take(lines.len() as int) =~= lines.deep_view());
    }
    Ok(found)
}

/// The line that makes the directory of a repository under its owner's and
/// clones the repository from GitHub into it.
pub open spec fn nested_clone_line(repository: RepositoryView) -> Seq<char> {
    let both = repository.owner + "/"@ + repository.name;
    "mkdir -p "@ + both + " && git clone https://github.com/"@ + both + " ./"@ + both + "\n"@
}

/// Writes the line that makes the directory of a repository under its
/// owner's and clones the repository from GitHub into it.
pub fn nested_clone_command(repository: &Repository) -> (line: String)
    ensures
        line@ == nested_clone_line(repository@),
{
    let both = String::from_str(repository.owner.as_str()).concat("/").concat(
        repository.name.as_str(),
    );
    String::from_str("mkdir -p ").concat(both.as_str()).concat(
        " && git clone https://github.com/",
    ).concat(both.as_str()).concat(" ./").concat(both.as_str()).concat("\n")
}

/// The script that clones each of the repositories, in order.
pub open spec fn nested_script(found: Seq<RepositoryView>) -> Seq<char>
    decreases found.len(),
{
    if found.len() == 0 {
        Seq::empty()
    } else {
        nested_script(found.drop_last()) + nested_clone_line(found.last())
    }
}

/// Builds the script that clones each of the repositories into a directory
/// of its own under its owner's.
pub fn nested_script_of(found: &Vec<Repository>) -> (out: String)
    ensures
        out@ == nested_script(found.deep_view()),
{
    let mut out = String::new();
    let mut i: usize = 0;
    while i < found.len()
        invariant
            i <= found.len(),
            out@ == nested_script(found.deep_view().take(i as int)),
        decreases found.len() - i,
    {
        proof {
            let upto = found.deep_view().take(i + 1);
            assert(upto.drop_last() =~= found.deep_view().take(i as int));
            assert(upto.last() == found[i as int]@);
        }
        let line = nested_clone_command(&found[i]);
        out.append(line.as_str());
        i += 1;
    }
    proof {
        assert(found.deep_view().take(found.len() as int) =~= found.deep_view());
    }
    out
}

/// The script that a clone script is converted to, or the reason why one
/// of its lines names no repository.
pub open spec fn converted_script(lines: Seq<Seq<char>>) -> Result<Seq<char>, ScriptError> {
    match repositories(lines) {
        Ok(found) => Ok(nested_script(found)),
        Err(e) => Err(e),
    }
}

/// Converts the lines of a clone script into a script that clones each
/// repository from GitHub into a directory of its own under its owner's.
pub fn convert_script(lines: &Vec<String>) -> (out: Result<String, ScriptError>)
    ensures
        match out {
            Ok(script) => converted_script(lines.deep_view()) == Ok::<Seq<char>, ScriptError>(
                script@,
            ),
            Err(e) => converted_script(lines.deep_view()) == Err::<Seq<char>, ScriptError>(e),
        },
{
    match repositories_of(lines) {
        Ok(found) => Ok(nested_script_of(&found)),
        Err(e) => Err(e),
    }
}

/// Whether a repository that lies directly in the work directory is moved
/// under its owner's directory: it is a directory there, and nothing is in
/// its place yet.
pub fn should_relocate(exists: bool, is_dir: bool, target_exists: bool) -> (moved: bool)
    ensures
        moved == (exists && is_dir && !target_exists),
{
    exists && is_dir && !target_exists
}

/// Reads from the lines of a clone script the repositories that are to be
/// moved under their owners' directories, one for each line and in the
/// order of the lines.
pub fn move_file_0826_github(lines: &Vec<String>) -> (out: Result<Vec<Repository>, ScriptError>)
    ensures
        match out {
            Ok(found) => repositories(lines.deep_view()) == Ok::<Seq<RepositoryView>, ScriptError>(
                found.deep_view(),
            ) && found.len() == lines.len(),
            Err(e) => repositories(lines.deep_view()) == Err::<Seq<RepositoryView>, ScriptError>(e),
        },
{
    proof {
        lemma_repositories_len(lines.deep_view());
    }
    repositories_of(lines)
}

} // verus!
