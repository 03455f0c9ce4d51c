//! The configuration: the accounts, their watermarks and their storages.

pub mod account;
pub mod config;
pub mod errors;
pub mod favourite;

use crate::config::errors::ConfigError;
use crate::text::str_trim;
use crate::text::to_chars;
use crate::text::trim;
use vstd::prelude::*;

verus! {

/// Configuration for the Joplin backend: the port of the local service, the
/// name of the notebook and the token of the service.
#[derive(Debug, PartialEq, Eq)]
pub struct JoplinConfig {
    pub port: u32,
    pub folder: String,
    pub token: String,
}

/// What a [`JoplinConfig`] stands for.
pub struct JoplinConfigView {
    pub port: nat,
    pub folder: Seq<char>,
    pub token: Seq<char>,
}

impl View for JoplinConfig {
    type V = JoplinConfigView;

    open spec fn view(&self) -> JoplinConfigView {
        JoplinConfigView { port: self.port as nat, folder: self.folder@, token: self.token@ }
    }
}

/// The line `line` holds nothing to fill in: no `$` anywhere, and at its
/// start no tilde that stands alone or before a slash or a backslash. Such a line
/// means the same path for every user and in every environment.
pub open spec fn literal_path(line: Seq<char>) -> bool {
    &&& forall|i: int| 0 <= i < line.len() ==> line[i] != '$'
    &&& !(line.len() > 0 && line[0] == '~' && (line.len() == 1 || line[1] == '/' || line[1]
        == '\\'))
}

/// The expansion can take the line `line`: every `$` of it stands at its
/// end or before an ASCII character.
pub open spec fn expandable(line: Seq<char>) -> bool {
    forall|i: int|
        0 <= i < line.len() - 1 && #[trigger] line[i] == '$' ==> (line[i + 1] as u32) < 0x80
}

/// A line that holds nothing to fill in holds no `$`, so the expansion can
/// take it.
pub proof fn lemma_literal_is_expandable(line: Seq<char>)
    requires
        literal_path(line),
    ensures
        expandable(line),
{
}

/// Whether the expansion can take the line `line`.
pub fn check_expandable(line: &str) -> (ok: bool)
    ensures
        ok == expandable(line@),
{
    let chars = to_chars(line);
    let mut i: usize = 1;
    while i < chars.len()
        invariant
            1 <= i,
            chars@ == line@,
            forall|k: int|
                0 <= k < i - 1 && #[trigger] chars@[k] == '$' ==> (chars@[k + 1] as u32) < 0x80,
        decreases chars.len() - i,
    {
        if chars[i - 1] == '$' && (chars[i] as u32) >= 0x80 {
            assert(chars@[i - 1] == '$' && (chars@[i - 1 + 1] as u32) >= 0x80);
            return false;
        }
        i += 1;
    }
    true
}

/// Calls `shellexpand::full`, which replaces a leading tilde by the home
/// directory and `$NAME` or `${NAME}` by the value of that environment
/// variable, and fails where a variable cannot be looked up. Behind a `$`
/// it cuts the line after the next character as if that took one byte, and
/// gives up where a letter or digit there takes more: so the call is made
/// only for a line in which every `$` stands before an ASCII character or
/// at the end. What it makes of a tilde or a `$` depends on the user and on
/// the environment of the process, so the contract claims nothing of it
/// there. A line without `$` it hands to the tilde expansion as it is, and
/// that leaves a line alone which does not start with a tilde that stands
/// alone or before a separator: such a line comes back unchanged, which is
/// all that the contract says.
#[verifier::external_body]
fn expand(input: &str) -> (expanded: Option<String>)
    requires
        expandable(input@),
    ensures
        match expanded {
            Some(path) => literal_path(input@) ==> path@ == input@,
            None => !literal_path(input@),
        },
{
    shellexpand::full(input).ok().map(|path| path.into_owned())
}

/// The path that a line of input stands for, given what its expansion came
/// to: the expansion itself, or `InvalidPath` where there is none.
pub fn expanded_path(expansion: Option<String>) -> (path: Result<String, ConfigError>)
    ensures
        match expansion {
            Some(expanded) => path == Ok::<String, ConfigError>(expanded),
            None => path == Err::<String, ConfigError>(ConfigError::InvalidPath),
        },
{
    match expansion {
        Some(expanded) => Ok(expanded),
        None => Err(ConfigError::InvalidPath),
    }
}

/// The path that the line `input` stands for: the line without the white
/// space at its ends, with the home directory and environment variables
/// filled in. A line that holds nothing to fill in is its own path. A line
/// in which a `$` stands before a character that is not ASCII names no
/// variable and fails with `InvalidPath`. Any other line gives what the
/// expansion makes of it in the environment of the process, and fails with
/// `InvalidPath` where a variable of the line cannot be looked up. There is
/// no other failure.
pub fn path_from_input(input: &str) -> (path: Result<String, ConfigError>)
    ensures
        match path {
            Ok(p) => {
                &&& expandable(trim(input@))
                &&& literal_path(trim(input@)) ==> p@ == trim(input@)
            },
            Err(e) => e == ConfigError::InvalidPath && !literal_path(trim(input@)),
        },
{
    let line = str_trim(input);
    if !check_expandable(line.as_str()) {
        proof {
            if literal_path(line@) {
                lemma_literal_is_expandable(line@);
            }
        }
        return Err(ConfigError::InvalidPath);
    }
    expanded_path(expand(line.as_str()))
}

} // verus!
