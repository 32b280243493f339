//! Where scenario files are looked for, which files are read, and how the
//! scenarios of several directories are merged.
//!
//! Reading the directories and parsing the files is left to the caller.
use vstd::prelude::*;
use crate::paths::{default_directories, default_dirs, home_dir, is_json5_path, merge_by_id, path_extension, with_key, last_with_key, keys_of};
use crate::scenario::model::NetworkScenario;
use crate::text::{extend_args, owned, push_lit, str_eq};

verus! {

/// The system scenario directory.
pub const SYSTEM_SCENARIO_DIR: &'static str = "/usr/share/tcgui/scenarios";

/// The user scenario directory, under the home directory.
pub const USER_SCENARIO_DIR: &'static str = ".config/tcgui/scenarios";

/// The local scenario directory.
pub const LOCAL_SCENARIO_DIR: &'static str = "./scenarios";

/// Directories scanned for `.json5` scenario files, lowest priority first.
#[derive(Debug, Clone)]
pub struct ScenarioLoader {
    directories: Vec<String>,
}

impl ScenarioLoader {
    /// The directories, lowest priority first.
    pub closed spec fn dirs(&self) -> Seq<Seq<char>> {
        self.directories.deep_view()
    }

    /// The default directories, with the user directory under the home
    /// directory when one is found.
    pub fn new() -> (l: ScenarioLoader)
        ensures
            exists|h: Option<Seq<char>>|
                (h matches Some(x) ==> x.len() > 0) && l.dirs() == #[trigger] default_dirs(
                    SYSTEM_SCENARIO_DIR@,
                    h,
                    USER_SCENARIO_DIR@,
                    LOCAL_SCENARIO_DIR@,
                ),
    {
        let home = home_dir();
        let l = Self::with_home(home);
        let ghost h = crate::text::opt_text(home);
        assert(h matches Some(x) ==> x.len() > 0);
        assert(l.dirs() == default_dirs(
            SYSTEM_SCENARIO_DIR@,
            h,
            USER_SCENARIO_DIR@,
            LOCAL_SCENARIO_DIR@,
        ));
        l
    }

    /// The default directories for a home directory (see `default_dirs`).
    pub fn with_home(home: Option<String>) -> (l: ScenarioLoader)
        ensures
            l.dirs() == default_dirs(
                SYSTEM_SCENARIO_DIR@,
                crate::text::opt_text(home),
                USER_SCENARIO_DIR@,
                LOCAL_SCENARIO_DIR@,
            ),
    {
        ScenarioLoader {
            directories: default_directories(
                SYSTEM_SCENARIO_DIR,
                home,
                USER_SCENARIO_DIR,
                LOCAL_SCENARIO_DIR,
            ),
        }
    }

    /// Exactly these directories.
    pub fn with_directories(directories: Vec<String>) -> (l: ScenarioLoader)
        ensures
            l.dirs() == directories.deep_view(),
    {
        ScenarioLoader { directories }
    }

    /// Adds directories after the others, with the highest priority.
    pub fn add_directories(&mut self, dirs: Vec<String>)
        ensures
            final(self).dirs() == old(self).dirs() + dirs.deep_view(),
    {
        extend_args(&mut self.directories, dirs);
    }

    /// Adds a directory after the others, with the highest priority.
    pub fn add_directory(&mut self, dir: String)
        ensures
            final(self).dirs() == old(self).dirs().push(dir@),
    {
        crate::text::push_arg(&mut self.directories, dir);
    }

    /// The directories, lowest priority first.
    pub fn directories(&self) -> (r: &Vec<String>)
        ensures
            r.deep_view() == self.dirs(),
    {
        &self.directories
    }

    /// The scenarios read from the directories in priority order, one per
    /// id: the last one read with each id wins.
    pub fn merge_loaded(scenarios: Vec<NetworkScenario>) -> (r: Vec<NetworkScenario>)
        ensures
            forall|i: int, j: int|
                0 <= i < j < r@.len() ==> #[trigger] keys_of(r@)[i] != #[trigger] keys_of(r@)[j],
            forall|k: Seq<char>| #[trigger] with_key(r@, k) == last_with_key(scenarios@, k),
    {
        merge_by_id(scenarios)
    }

    /// The scenario with id `id` among those loaded.
    pub fn get_scenario<'a>(loaded: &'a Vec<NetworkScenario>, id: &str) -> (r: Option<
        &'a NetworkScenario,
    >)
        ensures
            match r {
                Some(s) => s.id@ == id@ && exists|i: int|
                    0 <= i < loaded@.len() && loaded@[i] == *s && forall|j: int|
                        0 <= j < i ==> loaded@[j].id@ != id@,
                None => forall|i: int| 0 <= i < loaded@.len() ==> loaded@[i].id@ != id@,
            },
    {
        let mut i: usize = 0;
        while i < loaded.len()
            invariant
                i <= loaded@.len(),
                forall|j: int| 0 <= j < i ==> loaded@[j].id@ != id@,
            decreases loaded.len() - i,
        {
            if str_eq(loaded[i].id.as_str(), id) {
                return Some(&loaded[i]);
            }
            i = i + 1;
        }
        None
    }
}

/// The paths that name `.json5` files, in order.
pub fn json5_files(paths: &Vec<String>) -> (r: Vec<String>)
    ensures
        r.deep_view() == paths.deep_view().filter(|p: Seq<char>| path_extension(p) == Some("json5"@)),
{
    let ghost pred = |p: Seq<char>| path_extension(p) == Some("json5"@);
    let mut r: Vec<String> = Vec::new();
    let mut i: usize = 0;
    while i < paths.len()
        invariant
            i <= paths@.len(),
            pred == (|p: Seq<char>| path_extension(p) == Some("json5"@)),
            r.deep_view() == paths.deep_view().subrange(0, i as int).filter(pred),
        decreases paths.len() - i,
    {
        let keep = is_json5_path(paths[i].as_str());
        if keep {
            push_lit(&mut r, paths[i].as_str());
        }
        proof {
            let next = paths.deep_view().subrange(0, i + 1);
            assert(next.drop_last() =~= paths.deep_view().subrange(0, i as int));
            assert(next.last() == paths[i as int]@);
            reveal(Seq::filter);
            assert(pred(next.last()) == keep);
        }
        i = i + 1;
    }
    assert(paths.deep_view().subrange(0, paths@.len() as int) =~= paths.deep_view());
    r
}

} // verus!
