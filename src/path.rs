use crate::error::DatabaseError;
use vstd::prelude::*;
use vstd::string::StringExecFns;

verus! {

/// The character that separates path components on a platform family.
pub open spec fn separator(windows: bool) -> char {
    if windows {
        '\\'
    } else {
        '/'
    }
}

/// Whether `p` already ends in a character that separates components.
pub open spec fn ends_in_separator(p: Seq<char>, windows: bool) -> bool {
    p.len() > 0 && (p.last() == '/' || (windows && p.last() == '\\'))
}

/// Appends the relative component `comp` to `base`, adding a separator
/// only where `base` is non-empty and does not already end in one.
pub open spec fn join(base: Seq<char>, comp: Seq<char>, windows: bool) -> Seq<char> {
    if base.len() == 0 || ends_in_separator(base, windows) {
        base + comp
    } else {
        base + seq![separator(windows)] + comp
    }
}

/// The file name of the database, the same on every platform.
pub open spec fn file_name() -> Seq<char> {
    "data.db"@
}

/// The directory fragment that distinguishes each platform family's location.
pub open spec fn dir_fragment(windows: bool) -> Seq<char> {
    if windows {
        "AppData\\Local\\BurnCloud"@
    } else {
        ".burncloud"@
    }
}

/// The default database path below a user directory `base`.
pub open spec fn default_path(base: Seq<char>, windows: bool) -> Seq<char> {
    if windows {
        join(
            join(join(join(base, "AppData"@, true), "Local"@, true), "BurnCloud"@, true),
            file_name(),
            true,
        )
    } else {
        join(join(base, ".burncloud"@, false), file_name(), false)
    }
}

pub open spec fn profile_missing_reason() -> Seq<char> {
    "USERPROFILE not found: environment variable not found"@
}

pub open spec fn home_missing_reason() -> Seq<char> {
    "Home directory not found"@
}

pub open spec fn ends_with(s: Seq<char>, suffix: Seq<char>) -> bool {
    suffix.len() <= s.len() && s.subrange(s.len() - suffix.len(), s.len() as int) == suffix
}

pub open spec fn contains(s: Seq<char>, part: Seq<char>) -> bool {
    exists|i: int| 0 <= i <= s.len() - part.len() && #[trigger] s.subrange(i, i + part.len()) == part
}

/// Relies on `str::ends_with` with a `char` pattern: true exactly when the
/// last character of `s` is `c`.
#[verifier::external_body]
fn ends_with_char(s: &str, c: char) -> (r: bool)
    ensures
        r == (s@.len() > 0 && s@.last() == c),
{
    s.ends_with(c)
}

/// Relies on `std::path::MAIN_SEPARATOR`, the primary separator of the
/// platform the library was built for.
#[verifier::external_body]
fn main_separator() -> (r: char) {
    std::path::MAIN_SEPARATOR
}

/// Relies on `dirs::home_dir`, which consults the environment and the user
/// database; nothing is promised of what it finds.
#[verifier::external_body]
fn home_dir() -> (r: Option<String>) {
    dirs::home_dir().map(|p| p.to_string_lossy().into_owned())
}

/// Whether the library was built for the Windows family.
pub fn is_windows() -> (r: bool) {
    main_separator() == '\\'
}

/// Appends one relative component to a path.
pub fn join_component(base: String, comp: &str, windows: bool) -> (r: String)
    ensures
        r@ == join(base@, comp@, windows),
{
    let needs_separator = !(base.as_str().is_empty() || ends_with_char(base.as_str(), '/') || (windows
        && ends_with_char(base.as_str(), '\\')));
    if needs_separator {
        proof {
            reveal_strlit("\\");
            reveal_strlit("/");
        }
        let sep = if windows { "\\" } else { "/" };
        base.concat(sep).concat(comp)
    } else {
        base.concat(comp)
    }
}

/// Computes the default database path from a platform descriptor: whether the
/// platform is of the Windows family, the user-profile variable's value
/// (`Err` holds why it could not be read) and the home directory.
pub fn resolve_database_path(
    windows: bool,
    user_profile: Option<String>,
    home_dir: Option<String>,
) -> (r: Result<String, DatabaseError>)
    ensures
        windows ==> match user_profile {
            Some(p) => r matches Ok(path) && path@ == default_path(p@, true),
            None => r matches Err(DatabaseError::PathResolution(m))
                && m@ == profile_missing_reason(),
        },
        !windows ==> match home_dir {
            Some(h) => r matches Ok(path) && path@ == default_path(h@, false),
            None => r matches Err(DatabaseError::PathResolution(m)) && m@ == home_missing_reason(),
        },
{
    if windows {
        match user_profile {
            Some(p) => {
                let a = join_component(p, "AppData", true);
                let b = join_component(a, "Local", true);
                let c = join_component(b, "BurnCloud", true);
                Ok(join_component(c, "data.db", true))
            },
            None => Err(
                DatabaseError::PathResolution(
                    String::from_str("USERPROFILE not found: environment variable not found"),
                ),
            ),
        }
    } else {
        match home_dir {
            Some(h) => {
                let a = join_component(h, ".burncloud", false);
                Ok(join_component(a, "data.db", false))
            },
            None => Err(DatabaseError::PathResolution(String::from_str("Home directory not found"))),
        }
    }
}

/// Every default path, whatever the user directory, ends in the database
/// file name and holds the directory fragment of its platform family.
pub proof fn lemma_default_path_shape(base: Seq<char>, windows: bool)
    ensures
        ends_with(default_path(base, windows), file_name()),
        contains(default_path(base, windows), dir_fragment(windows)),
{
    reveal_strlit("data.db");
    reveal_strlit("AppData");
    reveal_strlit("Local");
    reveal_strlit("BurnCloud");
    reveal_strlit(".burncloud");
    reveal_strlit("AppData\\Local\\BurnCloud");
    let p = default_path(base, windows);
    if windows {
        let a = join(base, "AppData"@, true);
        let b = join(a, "Local"@, true);
        let c = join(b, "BurnCloud"@, true);
        assert(b =~= a + seq!['\\'] + "Local"@);
        assert(c =~= a + seq!['\\'] + "Local"@ + seq!['\\'] + "BurnCloud"@);
        assert(p =~= c + seq!['\\'] + file_name());
        let i = a.len() - 7;
        assert(a.subrange(i, a.len() as int) =~= "AppData"@);
        assert(p.subrange(i, i + 23) =~= dir_fragment(true));
    } else {
        let a = join(base, ".burncloud"@, false);
        assert(p =~= a + seq!['/'] + file_name());
        let i = a.len() - 10;
        assert(a.subrange(i, a.len() as int) =~= ".burncloud"@);
        assert(p.subrange(i, i + 10) =~= dir_fragment(false));
    }
    assert(p.subrange(p.len() - 7, p.len() as int) =~= file_name());
}

/// Resolves the default database path for the platform the library was
/// built for. `user_profile` is the value of the user-profile environment
/// variable, consulted on the Windows family only.
pub fn get_default_database_path(user_profile: Option<String>) -> (r: Result<
    String,
    DatabaseError,
>)
    ensures
        r matches Ok(p) ==> ends_with(p@, file_name()) && (contains(p@, dir_fragment(true))
            || contains(p@, dir_fragment(false))),
        r matches Err(e) ==> e is PathResolution,
{
    let windows = is_windows();
    let home = if windows {
        None
    } else {
        home_dir()
    };
    let r = resolve_database_path(windows, user_profile, home);
    if let Ok(p) = &r {
        proof {
            if windows {
                lemma_default_path_shape(user_profile.unwrap()@, true);
            } else {
                lemma_default_path_shape(home.unwrap()@, false);
            }
        }
    }
    r
}

} // verus!
