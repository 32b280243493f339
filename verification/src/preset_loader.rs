//! Where preset files are looked for, how the presets of several
//! directories are merged, and how a file that failed to load is reported.
//!
//! Reading the directories and parsing the files is left to the caller.
use vstd::prelude::*;
use crate::paths::{default_directories, default_dirs, home_dir, keys_of, last_with_key, merge_by_id, with_key, Keyed};
use crate::tc_config::TcNetemConfig;
use crate::text::{extend_args, owned, push_arg, push_str, str_eq};

verus! {

/// The system preset directory.
pub const SYSTEM_PRESET_DIR: &'static str = "/usr/share/tcgui/presets";

/// The user preset directory, under the home directory.
pub const USER_PRESET_DIR: &'static str = ".config/tcgui/presets";

/// The local preset directory.
pub const LOCAL_PRESET_DIR: &'static str = "./presets";

/// A preset read from a file.
#[derive(Debug, Clone)]
pub struct CustomPreset {
    pub id: String,
    pub name: String,
    pub description: String,
    pub config: TcNetemConfig,
}

impl Keyed for CustomPreset {
    open spec fn key(&self) -> Seq<char> {
        self.id@
    }

    fn id_str(&self) -> (r: &str) {
        self.id.as_str()
    }
}

/// The presets of the files that loaded, in order.
pub open spec fn loaded_presets(files: Seq<(String, Result<CustomPreset, String>)>) -> Seq<
    CustomPreset,
>
    decreases files.len(),
{
    if files.len() == 0 {
        Seq::empty()
    } else {
        let before = loaded_presets(files.drop_last());
        match files.last().1 {
            Ok(p) => before.push(p),
            Err(_) => before,
        }
    }
}

/// The file and the reason of each file that failed to load, in order.
pub open spec fn failed_files(files: Seq<(String, Result<CustomPreset, String>)>) -> Seq<
    (Seq<char>, Seq<char>),
>
    decreases files.len(),
{
    if files.len() == 0 {
        Seq::empty()
    } else {
        let before = failed_files(files.drop_last());
        match files.last().1 {
            Ok(_) => before,
            Err(e) => before.push((files.last().0@, e@)),
        }
    }
}

/// Load errors as file and reason.
pub open spec fn error_views(errors: Seq<PresetLoadError>) -> Seq<(Seq<char>, Seq<char>)> {
    errors.map_values(|e: PresetLoadError| (e.file_path@, e.error@))
}

/// A preset file that failed to load.
#[derive(Debug, Clone)]
pub struct PresetLoadError {
    /// The file.
    pub file_path: String,
    /// Why it failed.
    pub error: String,
}

impl PresetLoadError {
    /// `Failed to load preset from <file>: <error>`.
    pub fn to_string(&self) -> (s: String)
        ensures
            s@ == "Failed to load preset from "@ + self.file_path@ + ": "@ + self.error@,
    {
        let mut s = owned("Failed to load preset from ");
        push_str(&mut s, self.file_path.as_str());
        push_str(&mut s, ": ");
        push_str(&mut s, self.error.as_str());
        s
    }
}

/// Directories scanned for `.json5` preset files, lowest priority first.
#[derive(Debug, Clone)]
pub struct PresetLoader {
    directories: Vec<String>,
}

impl PresetLoader {
    /// The directories, lowest priority first.
    pub closed spec fn dirs(&self) -> Seq<Seq<char>> {
        self.directories.deep_view()
    }

    /// The default directories, for whatever home directory the
    /// environment gives (see `default_dirs`).
    pub fn new() -> (l: PresetLoader)
        ensures
            exists|h: Option<Seq<char>>|
                (h matches Some(x) ==> x.len() > 0) && l.dirs() == #[trigger] default_dirs(
                    SYSTEM_PRESET_DIR@,
                    h,
                    USER_PRESET_DIR@,
                    LOCAL_PRESET_DIR@,
                ),
    {
        Self::with_defaults(true)
    }

    /// The default directories, for whatever home directory the
    /// environment gives, or none.
    pub fn with_defaults(include_defaults: bool) -> (l: PresetLoader)
        ensures
            !include_defaults ==> l.dirs().len() == 0,
            include_defaults ==> exists|h: Option<Seq<char>>|
                (h matches Some(x) ==> x.len() > 0) && l.dirs() == #[trigger] default_dirs(
                    SYSTEM_PRESET_DIR@,
                    h,
                    USER_PRESET_DIR@,
                    LOCAL_PRESET_DIR@,
                ),
    {
        if include_defaults {
            let home = home_dir();
            let l = Self::with_home(home);
            let ghost h = crate::text::opt_text(home);
            assert(h matches Some(x) ==> x.len() > 0);
            assert(l.dirs() == default_dirs(
                SYSTEM_PRESET_DIR@,
                h,
                USER_PRESET_DIR@,
                LOCAL_PRESET_DIR@,
            ));
            l
        } else {
            PresetLoader { directories: Vec::new() }
        }
    }

    /// The default directories for a home directory (see `default_dirs`).
    pub fn with_home(home: Option<String>) -> (l: PresetLoader)
        ensures
            l.dirs() == default_dirs(
                SYSTEM_PRESET_DIR@,
                crate::text::opt_text(home),
                USER_PRESET_DIR@,
                LOCAL_PRESET_DIR@,
            ),
    {
        PresetLoader {
            directories: default_directories(SYSTEM_PRESET_DIR, home, USER_PRESET_DIR, LOCAL_PRESET_DIR),
        }
    }

    /// Exactly these directories.
    pub fn with_directories(directories: Vec<String>) -> (l: PresetLoader)
        ensures
            l.dirs() == directories.deep_view(),
    {
        PresetLoader { directories }
    }

    /// Adds directories after the others, with the highest priority.
    pub fn add_directories(&mut self, dirs: Vec<String>)
        ensures
            final(self).dirs() == old(self).dirs() + dirs.deep_view(),
    {
        extend_args(&mut self.directories, dirs);
    }

    /// Adds a directory after the others, with the highest priority.
    pub fn add_directory(&mut self, dir: String)
        ensures
            final(self).dirs() == old(self).dirs().push(dir@),
    {
        push_arg(&mut self.directories, dir);
    }

    /// The directories, lowest priority first.
    pub fn directories(&self) -> (r: &Vec<String>)
        ensures
            r.deep_view() == self.dirs(),
    {
        &self.directories
    }

    /// The presets read from the directories in priority order, one per
    /// id: the last one read with each id wins.
    pub fn merge_loaded(presets: Vec<CustomPreset>) -> (r: Vec<CustomPreset>)
        ensures
            forall|i: int, j: int|
                0 <= i < j < r@.len() ==> #[trigger] keys_of(r@)[i] != #[trigger] keys_of(r@)[j],
            forall|k: Seq<char>| #[trigger] with_key(r@, k) == last_with_key(presets@, k),
    {
        merge_by_id(presets)
    }

    /// The presets of the files read, in directory order and, within a
    /// directory, in the order the files were read; then merged by
    /// `merge_loaded`. Every file that failed to load gives one error, in
    /// the same order.
    pub fn collect_loaded(files: Vec<(String, Result<CustomPreset, String>)>) -> (r: (
        Vec<CustomPreset>,
        Vec<PresetLoadError>,
    ))
        ensures
            forall|i: int, j: int|
                0 <= i < j < r.0@.len() ==> #[trigger] keys_of(r.0@)[i] != #[trigger] keys_of(
                    r.0@,
                )[j],
            forall|k: Seq<char>| #[trigger]
                with_key(r.0@, k) == last_with_key(loaded_presets(files@), k),
            error_views(r.1@) == failed_files(files@),
    {
        let ghost all = files@;
        let total: usize = files.len();
        let mut files = files;
        let mut presets: Vec<CustomPreset> = Vec::new();
        let mut errors: Vec<PresetLoadError> = Vec::new();
        let mut done: usize = 0;
        while files.len() > 0
            invariant
                done + files@.len() == all.len(),
                all.len() == total,
                files@ == all.subrange(done as int, all.len() as int),
                presets@ == loaded_presets(all.subrange(0, done as int)),
                error_views(errors@) == failed_files(all.subrange(0, done as int)),
            decreases files.len(),
        {
            let (path, result) = files.remove(0);
            proof {
                assert(all[done as int] == (path, result));
                assert(all.subrange(0, done + 1).drop_last() =~= all.subrange(0, done as int));
                assert(all.subrange(0, done + 1).last() == all[done as int]);
            }
            match result {
                Ok(p) => {
                    presets.push(p);
                },
                Err(e) => {
                    errors.push(PresetLoadError { file_path: path, error: e });
                    proof {
                        assert(error_views(errors@) =~= error_views(errors@.drop_last()).push(
                            (errors@.last().file_path@, errors@.last().error@),
                        ));
                    }
                },
            }
            done = done + 1;
        }
        proof {
            assert(all.subrange(0, all.len() as int) =~= all);
        }
        (merge_by_id(presets), errors)
    }

    /// The preset with id `id` among those loaded.
    pub fn get_preset<'a>(loaded: &'a Vec<CustomPreset>, id: &str) -> (r: Option<&'a CustomPreset>)
        ensures
            match r {
                Some(p) => p.id@ == id@ && exists|i: int|
                    0 <= i < loaded@.len() && loaded@[i] == *p && forall|j: int|
                        0 <= j < i ==> loaded@[j].id@ != id@,
                None => forall|i: int| 0 <= i < loaded@.len() ==> loaded@[i].id@ != id@,
            },
    {
        let mut i: usize = 0;
        while i < loaded.len()
            invariant
                i <= loaded@.len(),
                forall|j: int| 0 <= j < i ==> loaded@[j].id@ != id@,
            decreases loaded.len() - i,
        {
            if str_eq(loaded[i].id.as_str(), id) {
                return Some(&loaded[i]);
            }
            i = i + 1;
        }
        None
    }
}

} // verus!
