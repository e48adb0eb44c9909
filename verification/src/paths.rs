//! Paths written in the configuration, expanded the way a shell would
//! (`~` and `$VARIABLE`), by the `shellexpand` crate.

use crate::text::opt_str_view;
use vstd::prelude::*;

verus! {

/// Where the configuration file is looked for when no path is given.
pub const DEFAULT_CONFIG_FILE_PATH: &'static str = "~/.config/lumen/config.toml";

/// A path could not be expanded: a variable it names is unset or not valid
/// Unicode.
#[derive(Clone, Debug)]
pub struct ExpandError {
    pub var_name: String,
}

/// `path` refers to an environment variable somewhere (holds a `$`).
pub open spec fn mentions_variable(path: Seq<char>) -> bool {
    path.contains('$')
}

/// `res` is a success holding exactly `value`.
pub open spec fn expanded_to(res: Result<String, ExpandError>, value: Seq<char>) -> bool {
    res matches Ok(s) && s@ == value
}

/// `path` is `~` alone or starts with `~/`: the forms that expand to the
/// home directory.
pub open spec fn names_home(path: Seq<char>) -> bool {
    path == seq!['~'] || (path.len() >= 2 && path[0] == '~' && path[1] == '/')
}

/// A path that expansion leaves exactly as it is: no variable reference and
/// no leading home-directory tilde.
pub open spec fn is_literal_path(path: Seq<char>) -> bool {
    !mentions_variable(path) && !names_home(path)
}

/// `s` ends with `suffix`.
pub open spec fn ends_with(s: Seq<char>, suffix: Seq<char>) -> bool {
    s.len() >= suffix.len() && s.subrange(s.len() - suffix.len(), s.len() as int) == suffix
}

/// `res` is a success whose text ends with what follows the leading `~` of
/// `path`: the home directory, or the `~` itself when there is no home
/// directory, is all that expansion puts in front.
pub open spec fn keeps_after_tilde(res: Result<String, ExpandError>, path: Seq<char>) -> bool {
    res matches Ok(s) && ends_with(s@, path.drop_first())
}

/// Expands `path` with `shellexpand::full`, which substitutes environment
/// variables and then a leading `~`. Claims, as the crate's source shows,
/// that a path without `$` always expands (only a variable lookup can fail);
/// that such a path, when it is `~` or starts with `~/`, expands to the home
/// directory (or stays as it is when there is none) followed by the rest of
/// the path; and that any other path without `$` comes back unchanged. What
/// the home directory and the variables hold depends on the environment and
/// is not stated.
#[verifier::external_body]
fn shell_expand(path: &str) -> (res: Result<String, ExpandError>)
    ensures
        !mentions_variable(path@) ==> res is Ok,
        !mentions_variable(path@) && names_home(path@) ==> keeps_after_tilde(res, path@),
        is_literal_path(path@) ==> expanded_to(res, path@),
{
    match shellexpand::full(path) {
        Ok(expanded) => Ok(expanded.into_owned()),
        Err(e) => Err(ExpandError { var_name: e.var_name }),
    }
}

/// Expands `~` and environment variables in `path`.
pub fn expand_path(path: &str) -> (res: Result<String, ExpandError>)
    ensures
        !mentions_variable(path@) ==> res is Ok,
        !mentions_variable(path@) && names_home(path@) ==> keeps_after_tilde(res, path@),
        is_literal_path(path@) ==> expanded_to(res, path@),
{
    shell_expand(path)
}

/// The path handed to expansion: the given one, else the default.
pub open spec fn config_path_input(path: Option<Seq<char>>) -> Seq<char> {
    match path {
        Some(p) => p,
        None => DEFAULT_CONFIG_FILE_PATH@,
    }
}

/// The configuration file's path: the given one, else
/// `DEFAULT_CONFIG_FILE_PATH`, expanded. The default always expands, to the
/// home directory followed by `/.config/lumen/config.toml`.
pub fn resolve_config_path(path: Option<&str>) -> (res: Result<String, ExpandError>)
    ensures
        !mentions_variable(config_path_input(opt_str_view(path))) ==> res is Ok,
        !mentions_variable(config_path_input(opt_str_view(path))) && names_home(
            config_path_input(opt_str_view(path)),
        ) ==> keeps_after_tilde(res, config_path_input(opt_str_view(path))),
        is_literal_path(config_path_input(opt_str_view(path))) ==> expanded_to(
            res,
            config_path_input(opt_str_view(path)),
        ),
        path is None ==> (res matches Ok(s) && ends_with(s@, "/.config/lumen/config.toml"@)),
{
    match path {
        Some(p) => expand_path(p),
        None => {
            let default = DEFAULT_CONFIG_FILE_PATH;
            proof {
                reveal_strlit("~/.config/lumen/config.toml");
                reveal_strlit("/.config/lumen/config.toml");
                assert(!mentions_variable(default@)) by {
                    assert forall|i: int| 0 <= i < default@.len() implies default@[i] != '$' by {}
                }
                assert(names_home(default@));
                assert(default@.drop_first() =~= "/.config/lumen/config.toml"@);
            }
            expand_path(default)
        },
    }
}

} // verus!
