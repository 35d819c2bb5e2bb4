use vstd::prelude::*;
use vstd::string::*;

use crate::text::{replace, replace_all};

verus! {

/// The home directory could not be determined.
#[derive(Clone, Copy, Debug, PartialEq, Eq, Structural)]
pub struct NoHomeDir;

impl NoHomeDir {
    pub fn message(&self) -> (r: String)
        ensures
            r@ == "Failed to get user's home directory!"@,
    {
        String::from_str("Failed to get user's home directory!")
    }
}

/// Why a path could not be shown relative to the home directory.
#[derive(Clone, Copy, Debug, PartialEq, Eq, Structural)]
pub enum ContractHomeError {
    NoHomeDir(NoHomeDir),
    HomeInvalidUtf8,
    PathInvalidUtf8,
}

impl ContractHomeError {
    pub fn message(&self) -> (r: String)
        ensures
            r@ == match self {
                ContractHomeError::NoHomeDir(_) => "Failed to get user's home directory!"@,
                ContractHomeError::HomeInvalidUtf8 => "User's home directory path wasn't valid UTF-8."@,
                ContractHomeError::PathInvalidUtf8 => "Supplied path wasn't valid UTF-8."@,
            },
    {
        match self {
            ContractHomeError::NoHomeDir(e) => e.message(),
            ContractHomeError::HomeInvalidUtf8 => String::from_str(
                "User's home directory path wasn't valid UTF-8.",
            ),
            ContractHomeError::PathInvalidUtf8 => String::from_str(
                "Supplied path wasn't valid UTF-8.",
            ),
        }
    }
}

/// The name of the install directory under the home directory.
pub const INSTALL_DIR_NAME: &'static str = ".cargo-flatpak";

pub const CHECKOUTS_DIR_NAME: &'static str = "checkouts";

pub const TOOLS_DIR_NAME: &'static str = "tools";

/// Relies on home::home_dir: the current user's home directory, if it can be
/// determined, and its text where that text is valid UTF-8. What it returns
/// depends on the environment.
#[verifier::external_body]
fn find_home() -> (r: Option<Option<String>>) {
    match home::home_dir() {
        Some(p) => Some(p.into_os_string().into_string().ok()),
        None => None,
    }
}

/// `part` appended to `base` as a path component: an absolute `part` takes
/// the place of `base`, otherwise one separator stands between the two.
pub open spec fn joined(base: Seq<char>, part: Seq<char>) -> Seq<char> {
    if part.len() > 0 && part[0] == '/' {
        part
    } else if base.len() == 0 || base.last() == '/' {
        base + part
    } else {
        base + seq!['/'] + part
    }
}

/// Appends `part` to the path `base`, as `Path::join` does on Unix.
pub fn join(base: &str, part: &str) -> (r: String)
    ensures
        r@ == joined(base@, part@),
{
    let n = base.unicode_len();
    let m = part.unicode_len();
    if m > 0 && part.get_char(0) == '/' {
        String::from_str(part)
    } else {
        let mut out = String::from_str(base);
        if n > 0 && base.get_char(n - 1) != '/' {
            out.append("/");
        }
        out.append(part);
        proof {
            reveal_strlit("/");
        }
        assert(out@ =~= joined(base@, part@));
        out
    }
}

/// Turns the result of a home directory lookup into the home directory's path.
/// A home directory whose path is not valid UTF-8 cannot be held as text, and
/// counts as missing.
pub fn home_from(found: Option<Option<String>>) -> (r: Result<String, NoHomeDir>)
    ensures
        match found {
            Some(Some(h)) => r == Ok::<String, NoHomeDir>(h),
            _ => r == Err::<String, NoHomeDir>(NoHomeDir),
        },
{
    match found {
        Some(Some(h)) => Ok(h),
        _ => Err(NoHomeDir),
    }
}

/// The current user's home directory.
pub fn home_dir() -> (r: Result<String, NoHomeDir>)
    ensures
        r is Err ==> r == Err::<String, NoHomeDir>(NoHomeDir),
{
    home_from(find_home())
}

pub open spec fn drop_separators(s: Seq<char>) -> Seq<char>
    decreases s.len(),
{
    if s.len() > 0 && s[0] == '/' {
        drop_separators(s.drop_first())
    } else {
        s
    }
}

/// What follows a leading `~` component of `path`, if it has one.
pub open spec fn after_tilde(path: Seq<char>) -> Option<Seq<char>> {
    if path == seq!['~'] {
        Some(Seq::<char>::empty())
    } else if path.len() >= 2 && path[0] == '~' && path[1] == '/' {
        Some(drop_separators(path.skip(2)))
    } else {
        None
    }
}

/// `path` with a leading `~` component put in terms of `home`.
pub open spec fn expanded(home: Seq<char>, path: Seq<char>) -> Seq<char> {
    match after_tilde(path) {
        Some(rest) => joined(home, rest),
        None => path,
    }
}

/// Expands a leading `~` component of `path` to `home`.
pub fn expand_home_in(home: &str, path: &str) -> (r: String)
    ensures
        r@ == expanded(home@, path@),
{
    let n = path.unicode_len();
    if n == 1 && path.get_char(0) == '~' {
        assert(path@ =~= seq!['~']);
        proof {
            reveal_strlit("");
        }
        join(home, "")
    } else if n >= 2 && path.get_char(0) == '~' && path.get_char(1) == '/' {
        let mut j: usize = 2;
        assert(path@.skip(2) =~= path@.skip(j as int));
        while j < n && path.get_char(j) == '/'
            invariant
                2 <= j <= n,
                n == path@.len(),
                drop_separators(path@.skip(2)) == drop_separators(path@.skip(j as int)),
            decreases n - j,
        {
            assert(path@.skip(j as int).drop_first() =~= path@.skip(j + 1));
            j = j + 1;
        }
        let rest = path.substring_char(j, n);
        assert(rest@ =~= path@.skip(j as int));
        join(home, rest)
    } else {
        proof {
            if n == 1 {
                assert(path@ != seq!['~']);
            }
        }
        String::from_str(path)
    }
}

/// Expands a leading `~` component of `path` to the home directory.
pub fn expand_home(path: &str) -> (r: Result<String, NoHomeDir>)
    ensures
        r matches Ok(p) ==> exists|home: Seq<char>| p@ == expanded(home, path@),
        r is Err ==> r == Err::<String, NoHomeDir>(NoHomeDir),
{
    match home_dir() {
        Ok(home) => Ok(expand_home_in(home.as_str(), path)),
        Err(e) => Err(e),
    }
}

/// Puts `path` in terms of `~` given the result of a home directory lookup.
pub fn contract_home_in(found: Option<Option<String>>, path: &str) -> (r: Result<
    String,
    ContractHomeError,
>)
    ensures
        found is None ==> r == Err::<String, ContractHomeError>(
            ContractHomeError::NoHomeDir(NoHomeDir),
        ),
        found == Some(None::<String>) ==> r == Err::<String, ContractHomeError>(
            ContractHomeError::HomeInvalidUtf8,
        ),
        found matches Some(Some(h)) ==> {
            &&& r is Ok
            &&& r->Ok_0@ == replace_all(path@, h@, seq!['~'])
        },
{
    match found {
        Option::None => Err(ContractHomeError::NoHomeDir(NoHomeDir)),
        Option::Some(Option::None) => Err(ContractHomeError::HomeInvalidUtf8),
        Option::Some(Option::Some(h)) => {
            proof {
                reveal_strlit("~");
            }
            assert("~"@ =~= seq!['~']);
            Ok(replace(path, h.as_str(), "~"))
        },
    }
}

/// Puts `path` in terms of `~`: every occurrence of the home directory's
/// path in it becomes `~`.
pub fn contract_home(path: &str) -> (r: Result<String, ContractHomeError>)
    ensures
        r matches Ok(p) ==> exists|home: Seq<char>| p@ == replace_all(path@, home, seq!['~']),
        r is Err ==> r != Err::<String, ContractHomeError>(ContractHomeError::PathInvalidUtf8),
{
    contract_home_in(find_home(), path)
}

/// The install directory under the home directory `home`.
pub open spec fn install_path(home: Seq<char>) -> Seq<char> {
    joined(home, INSTALL_DIR_NAME@)
}

pub fn install_dir_in(home: &str) -> (r: String)
    ensures
        r@ == install_path(home@),
{
    join(home, INSTALL_DIR_NAME)
}

pub fn checkouts_dir_in(home: &str) -> (r: String)
    ensures
        r@ == joined(install_path(home@), CHECKOUTS_DIR_NAME@),
{
    let install = install_dir_in(home);
    join(install.as_str(), CHECKOUTS_DIR_NAME)
}

pub fn tools_dir_in(home: &str) -> (r: String)
    ensures
        r@ == joined(install_path(home@), TOOLS_DIR_NAME@),
{
    let install = install_dir_in(home);
    join(install.as_str(), TOOLS_DIR_NAME)
}

/// The directory under the home directory that holds the tool's state.
pub fn install_dir() -> (r: Result<String, NoHomeDir>)
    ensures
        r matches Ok(p) ==> exists|home: Seq<char>| p@ == install_path(home),
        r is Err ==> r == Err::<String, NoHomeDir>(NoHomeDir),
{
    match home_dir() {
        Ok(home) => Ok(install_dir_in(home.as_str())),
        Err(e) => Err(e),
    }
}

/// The directory that holds checkouts, inside the install directory.
pub fn checkouts_dir() -> (r: Result<String, NoHomeDir>)
    ensures
        r matches Ok(p) ==> exists|home: Seq<char>|
            p@ == joined(install_path(home), CHECKOUTS_DIR_NAME@),
        r is Err ==> r == Err::<String, NoHomeDir>(NoHomeDir),
{
    match home_dir() {
        Ok(home) => Ok(checkouts_dir_in(home.as_str())),
        Err(e) => Err(e),
    }
}

/// The directory that holds installed tools, inside the install directory.
pub fn tools_dir() -> (r: Result<String, NoHomeDir>)
    ensures
        r matches Ok(p) ==> exists|home: Seq<char>|
            p@ == joined(install_path(home), TOOLS_DIR_NAME@),
        r is Err ==> r == Err::<String, NoHomeDir>(NoHomeDir),
{
    match home_dir() {
        Ok(home) => Ok(tools_dir_in(home.as_str())),
        Err(e) => Err(e),
    }
}

} // verus!
