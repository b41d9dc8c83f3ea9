//! The folders of the user, as the environment gives them.

use vstd::prelude::*;

use crate::paths::{join_path, joined_path};
use crate::text::opt_text;
use crate::wine::WineRunnerInstance;

verus! {

/// The folders of the user that the launcher works with. They come from the
/// environment once, at the start, and are handed to what needs them.
pub struct Locations {
    /// The user's home directory.
    pub home: Option<String>,
    /// The launcher's own data directory.
    pub data_dir: Option<String>,
}

/// Calls `directories::BaseDirs::new` and reads `home_dir` of what it
/// returns. The result depends on the environment, so nothing is claimed of
/// it. It is `None` where no home directory is found or its path is not valid
/// text.
#[verifier::external_body]
fn home_dir() -> (r: Option<String>) {
    directories::BaseDirs::new().and_then(|d| d.home_dir().to_str().map(|s| s.to_owned()))
}

/// Calls `directories::ProjectDirs::from` and reads `data_dir` of what it
/// returns. The result depends on the environment, so nothing is claimed of
/// it. It is `None` where no home directory is found or the path is not valid
/// text.
#[verifier::external_body]
fn project_data_dir(qualifier: &str, organization: &str, application: &str) -> (r: Option<String>) {
    directories::ProjectDirs::from(qualifier, organization, application).and_then(
        |d| d.data_dir().to_str().map(|s| s.to_owned()),
    )
}

/// The folder of the prefix that Wine uses for a program: the one that is
/// set for it, else `.wine` in the home directory, if there is one.
pub open spec fn prefix_in(wineprefix: Option<Seq<char>>, home: Option<Seq<char>>) -> Option<
    Seq<char>,
> {
    match wineprefix {
        Some(prefix) => Some(prefix),
        None => match home {
            Some(h) => Some(joined_path(h, ".wine"@)),
            None => None,
        },
    }
}

impl Locations {
    /// The folders as the environment gives them for the launcher. Both come
    /// from outside and either may be missing, whatever the other is, so
    /// nothing is promised of them here. What is made of them is said by
    /// `wine_prefix` and `data_folder`, for every value that they can have.
    pub fn detect() -> (r: Self) {
        Locations {
            home: home_dir(),
            data_dir: project_data_dir("com", "louisbui63", "game_handler"),
        }
    }

    /// The folder of the prefix that Wine uses for a program.
    pub fn wine_prefix(&self, wine: &WineRunnerInstance) -> (r: Option<String>)
        ensures
            opt_text(r) == prefix_in(wine@.wineprefix, opt_text(self.home)),
    {
        match &wine.wineprefix {
            Some(prefix) => Some(prefix.clone()),
            None => match &self.home {
                Some(h) => Some(join_path(h.as_str(), ".wine")),
                None => None,
            },
        }
    }

    /// A folder inside the launcher's data directory, if that is known.
    pub fn data_folder(&self, name: &str) -> (r: Option<String>)
        ensures
            opt_text(r) == (match opt_text(self.data_dir) {
                Some(d) => Some(joined_path(d, name@)),
                None => None,
            }),
    {
        match &self.data_dir {
            Some(d) => Some(join_path(d.as_str(), name)),
            None => None,
        }
    }
}

} // verus!
