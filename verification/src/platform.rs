//! The operating systems the trust anchor can be installed on, and how each
//! of them writes a path.

use crate::text::occurs;
use vstd::prelude::*;

verus! {

/// The operating system whose trust store is addressed.
#[derive(Debug, Clone, Copy, PartialEq, Eq, Structural)]
pub enum Platform {
    MacOs,
    Linux,
    Windows,
}

impl Platform {
    /// Whether the platform's trust store can be asked what it holds.
    pub open spec fn spec_has_trust_query(self) -> bool {
        self == Platform::MacOs
    }

    /// Whether the platform's trust store can be asked what it holds.
    #[verifier::when_used_as_spec(spec_has_trust_query)]
    pub fn has_trust_query(self) -> (b: bool)
        ensures
            b == self.spec_has_trust_query(),
    {
        match self {
            Platform::MacOs => true,
            _ => false,
        }
    }

    /// The character the platform puts between the components of a path.
    pub open spec fn spec_separator(self) -> char {
        if self == Platform::Windows {
            '\\'
        } else {
            '/'
        }
    }

    /// The platform's separator as a text of one character.
    pub fn separator(self) -> (text: &'static str)
        ensures
            text@ == seq![self.spec_separator()],
    {
        match self {
            Platform::Windows => {
                proof {
                    reveal_strlit("\\");
                }
                assert("\\"@ =~= seq!['\\']);
                "\\"
            },
            _ => {
                proof {
                    reveal_strlit("/");
                }
                assert("/"@ =~= seq!['/']);
                "/"
            },
        }
    }

    /// Whether the platform reads `c` as the end of a path component.
    pub open spec fn spec_is_separator(self, c: char) -> bool {
        c == '/' || (self == Platform::Windows && c == '\\')
    }

    /// Whether the platform reads `c` as the end of a path component.
    #[verifier::when_used_as_spec(spec_is_separator)]
    pub fn is_separator(self, c: char) -> (b: bool)
        ensures
            b == self.spec_is_separator(c),
    {
        c == '/' || (c == '\\' && match self {
            Platform::Windows => true,
            _ => false,
        })
    }
}

/// The qualifier in this application's identifier.
pub const QUALIFIER: &'static str = "org";

/// The organization in this application's identifier.
pub const ORGANIZATION: &'static str = "mitmproxy";

/// The name of this application. It is a word of lower-case letters, which
/// every platform takes into the paths of the application's directories as
/// it stands; that is why the directory found for it can be told from
/// another application's.
pub const APPLICATION: &'static str = "desktop";

/// The per-user configuration directory of this application, if the system
/// has one for this user: a directory whose path holds the application's name.
pub fn project_config_dir() -> (dir: Option<String>)
    ensures
        dir matches Some(found) ==> occurs(found@, APPLICATION@),
{
    proof {
        reveal_strlit("desktop");
    }
    locate_config_dir(QUALIFIER, ORGANIZATION, APPLICATION)
}

/// Whether `name` is made of lower-case ASCII letters and digits alone.
pub open spec fn is_plain_name(name: Seq<char>) -> bool {
    forall|i: int|
        0 <= i < name.len() ==> ('a' <= #[trigger] name[i] <= 'z' || '0' <= name[i] <= '9')
}

/// directories' `ProjectDirs::from` and `ProjectDirs::config_dir`: the
/// per-user configuration directory of the application with the given
/// names, if the system has one for this user and its path is Unicode.
///
/// Which directory that is depends on the platform and on the user's
/// environment. On every platform the application's name is a part of its
/// path: Linux appends the name in lower case and without white space, macOS
/// appends the three names joined by dots with spaces replaced, Windows
/// appends the organization, the name and `config`. A plain name stays as it
/// is under each of these, which is all the contract claims.
#[verifier::external_body]
fn locate_config_dir(qualifier: &str, organization: &str, application: &str) -> (dir: Option<
    String,
>)
    requires
        is_plain_name(application@),
    ensures
        dir matches Some(found) ==> occurs(found@, application@),
{
    directories::ProjectDirs::from(qualifier, organization, application).and_then(
        |dirs| dirs.config_dir().to_str().map(str::to_owned),
    )
}

/// The path of the entry `name` inside the directory `dir`: the two texts
/// with one separator between them, unless `dir` is empty or ends in a
/// separator already.
pub open spec fn joined(platform: Platform, dir: Seq<char>, name: Seq<char>) -> Seq<char> {
    if dir.len() == 0 || platform.spec_is_separator(dir.last()) {
        dir + name
    } else {
        dir.push(platform.spec_separator()) + name
    }
}

/// Computes the path of the entry `name` inside the directory `dir`.
pub fn join_path(platform: Platform, dir: &str, name: &str) -> (path: String)
    ensures
        path@ == joined(platform, dir@, name@),
{
    let n = dir.unicode_len();
    let mut path = dir.to_owned();
    if n > 0 && !platform.is_separator(dir.get_char(n - 1)) {
        path.append(platform.separator());
        assert(path@ =~= dir@.push(platform.spec_separator()));
    }
    path.append(name);
    path
}

} // verus!
