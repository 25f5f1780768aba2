//! Settings: where the configuration and the registry live, and in which
//! mode (full or headless) the tool runs.
use crate::errors::SettingsError;
use crate::plugins::{plugins_view, Plugin, PluginModel};
use crate::text::{join_path, path_join};
use vstd::prelude::*;
use vstd::string::*;

verus! {

#[verifier::external_type_specification]
#[verifier::external_body]
pub struct ExPatternError(glob::PatternError);

/// What the settings stand for.
pub struct SettingsModel {
    pub working_dir: Option<Seq<char>>,
    pub states_dir: Option<Seq<char>>,
    pub headless: bool,
    pub switch_on_add: bool,
    pub plugins: Seq<PluginModel>,
}

/// The persisted configuration of the tool.
#[derive(Debug)]
pub struct Settings {
    pub working_dir: Option<String>,
    pub states_dir: Option<String>,
    pub headless: bool,
    pub switch_on_add: bool,
    pub plugins: Vec<Plugin>,
}

/// The view of an optional text.
pub open spec fn opt_text(o: Option<String>) -> Option<Seq<char>> {
    match o {
        Some(s) => Some(s@),
        None => None,
    }
}

impl View for Settings {
    type V = SettingsModel;

    open spec fn view(&self) -> SettingsModel {
        SettingsModel {
            working_dir: opt_text(self.working_dir),
            states_dir: opt_text(self.states_dir),
            headless: self.headless,
            switch_on_add: self.switch_on_add,
            plugins: plugins_view(self.plugins@),
        }
    }
}

/// The plugins given, none when left out.
pub open spec fn plugins_given(plugins: Option<Vec<Plugin>>) -> Seq<PluginModel> {
    match plugins {
        Some(v) => plugins_view(v@),
        None => Seq::empty(),
    }
}

/// The working directory used when none is given.
pub open spec fn default_working_dir(home: Seq<char>) -> Seq<char> {
    path_join(home, ".godwit"@)
}

/// The settings that `init` builds, given the home directory.
pub open spec fn init_model(
    home: Seq<char>,
    working_dir: Option<Seq<char>>,
    states_dir: Option<Seq<char>>,
    headless: bool,
    switch_on_add: bool,
    plugins: Seq<PluginModel>,
) -> SettingsModel {
    if headless {
        SettingsModel { working_dir: Some(home), states_dir: None, headless, switch_on_add, plugins }
    } else {
        let wd = match working_dir {
            Some(w) => w,
            None => default_working_dir(home),
        };
        let sd = match states_dir {
            Some(s) => s,
            None => path_join(wd, "states"@),
        };
        SettingsModel { working_dir: Some(wd), states_dir: Some(sd), headless, switch_on_add, plugins }
    }
}

/// The file that holds the settings of the given mode in `working_dir`.
pub open spec fn settings_file_in(working_dir: Seq<char>, headless: bool) -> Seq<char> {
    if headless {
        path_join(working_dir, ".gwrc"@)
    } else {
        path_join(working_dir, "settings.gwcore"@)
    }
}

/// The registry file used when none is found in the states directory.
pub open spec fn default_registry(states_dir: Seq<char>) -> Seq<char> {
    path_join(states_dir, "active.gwsg"@)
}

/// The registry file chosen from the first entry that a search of the
/// states directory gave, if any.
pub open spec fn registry_choice(states_dir: Seq<char>, first: Option<Option<String>>) -> Seq<char> {
    match first {
        Some(Some(p)) => p@,
        _ => default_registry(states_dir),
    }
}

/// Relies on `dirs::home_dir`: the user's home directory, when one is known.
/// It depends on the environment, so nothing is stated of it.
#[verifier::external_body]
fn home_dir() -> (r: Option<String>) {
    dirs::home_dir().map(|p| p.to_string_lossy().into_owned())
}

/// Whether `glob::glob` accepts a pattern: it is judged on the pattern's
/// text alone.
pub uninterp spec fn glob_pattern_ok(pattern: Seq<char>) -> bool;

/// Relies on `glob::glob`: fails exactly when the pattern's text is
/// malformed, else walks the paths that match it; gives the first entry
/// (`None` inside when reading that entry failed). Which entry comes first
/// depends on the disk, so nothing is stated of it.
#[verifier::external_body]
fn first_glob_match(pattern: &str) -> (r: Result<Option<Option<String>>, glob::PatternError>)
    ensures
        r is Ok <==> glob_pattern_ok(pattern@),
{
    glob::glob(pattern).map(
        |mut paths| paths.next().map(|entry| entry.ok().map(|p| p.to_string_lossy().into_owned())),
    )
}

fn copy_opt(o: &Option<String>) -> (r: Option<String>)
    ensures
        opt_text(r) == opt_text(*o),
{
    match o {
        Some(s) => Some(s.clone()),
        None => None,
    }
}

/// The pattern that finds registry files in `states_dir`.
pub open spec fn registry_pattern_text(states_dir: Seq<char>) -> Seq<char> {
    states_dir + "/*.gwsg"@
}

/// The states directory of settings `s` as text, empty when unset.
pub open spec fn states_dir_text(s: SettingsModel) -> Seq<char> {
    match s.states_dir {
        Some(d) => d,
        None => Seq::empty(),
    }
}

/// The pattern that finds registry files in `states_dir`.
pub fn registry_pattern(states_dir: &str) -> (r: String)
    ensures
        r@ == registry_pattern_text(states_dir@),
{
    let mut r = String::from_str(states_dir);
    r.append("/*.gwsg");
    r
}

/// The registry file for the states directory `states_dir`, given the
/// first entry that a search of it for registry files gave.
pub fn registry_path_from(states_dir: &str, first: Option<Option<String>>) -> (r: String)
    ensures
        r@ == registry_choice(states_dir@, first),
{
    match first {
        Some(Some(p)) => p,
        _ => join_path(states_dir, "active.gwsg"),
    }
}

impl Settings {
    /// Settings for the given home directory: paths left out are filled in
    /// from it, and headless mode uses the home directory itself.
    pub fn init_with_home(
        home: &str,
        working_dir: Option<String>,
        states_dir: Option<String>,
        headless: bool,
        switch_on_add: bool,
        plugins: Option<Vec<Plugin>>,
    ) -> (r: Settings)
        ensures
            r@ == init_model(
                home@,
                opt_text(working_dir),
                opt_text(states_dir),
                headless,
                switch_on_add,
                plugins_given(plugins),
            ),
    {
        let ghost wanted = plugins_given(plugins);
        let plugins = match plugins {
            Some(v) => v,
            None => Vec::new(),
        };
        assert(plugins_view(plugins@) =~= wanted);
        if headless {
            return Settings {
                working_dir: Some(String::from_str(home)),
                states_dir: None,
                headless,
                switch_on_add,
                plugins,
            };
        }
        let wd = match working_dir {
            Some(w) => w,
            None => join_path(home, ".godwit"),
        };
        let sd = match states_dir {
            Some(s) => s,
            None => join_path(wd.as_str(), "states"),
        };
        Settings { working_dir: Some(wd), states_dir: Some(sd), headless, switch_on_add, plugins }
    }

    /// Settings whose left-out paths are filled in from the user's home
    /// directory; fails only when the home directory is needed (headless
    /// mode, or a path left out) and cannot be found.
    pub fn init(
        working_dir: Option<String>,
        states_dir: Option<String>,
        headless: bool,
        switch_on_add: bool,
        plugins: Option<Vec<Plugin>>,
    ) -> (r: Result<Settings, SettingsError>)
        ensures
            match r {
                Ok(s) => exists|home: Seq<char>|
                    s@ == init_model(
                        home,
                        opt_text(working_dir),
                        opt_text(states_dir),
                        headless,
                        switch_on_add,
                        plugins_given(plugins),
                    ),
                Err(e) => e is WorkingDirNotFound,
            },
            !headless && working_dir is Some && states_dir is Some ==> (r matches Ok(s) && s@
                == init_model(
                Seq::empty(),
                opt_text(working_dir),
                opt_text(states_dir),
                headless,
                switch_on_add,
                plugins_given(plugins),
            )),
    {
        if !headless && working_dir.is_some() && states_dir.is_some() {
            return Ok(
                Settings::init_with_home(
                    "",
                    working_dir,
                    states_dir,
                    headless,
                    switch_on_add,
                    plugins,
                ),
            );
        }
        match home_dir() {
            Some(home) => Ok(
                Settings::init_with_home(
                    home.as_str(),
                    working_dir,
                    states_dir,
                    headless,
                    switch_on_add,
                    plugins,
                ),
            ),
            None => Err(SettingsError::WorkingDirNotFound),
        }
    }

    /// The settings used when nothing is configured: full mode under
    /// `<home>/.godwit`, switching to each project that is added.
    pub fn default_with_home(home: &str) -> (r: Settings)
        ensures
            r@ == init_model(home@, None, None, false, true, Seq::empty()),
    {
        Settings::init_with_home(home, None, None, false, true, None)
    }

    /// The file that holds these settings.
    pub fn settings_file(&self) -> (r: Result<String, SettingsError>)
        ensures
            match self@.working_dir {
                Some(wd) => r matches Ok(p) && p@ == settings_file_in(wd, self.headless),
                None => r matches Err(e) && e is WorkingDirNotFound,
            },
    {
        match &self.working_dir {
            Some(wd) => {
                if self.headless {
                    Ok(join_path(wd.as_str(), ".gwrc"))
                } else {
                    Ok(join_path(wd.as_str(), "settings.gwcore"))
                }
            },
            None => Err(SettingsError::WorkingDirNotFound),
        }
    }

    /// What writing these settings takes: the directories to create if
    /// missing and the file to write. `target_exists` tells whether the
    /// settings file is already there; without `upsert` it must be.
    pub fn save_settings(&self, upsert: bool, target_exists: bool) -> (r: Result<
        SavePlan,
        SettingsError,
    >)
        ensures
            match self@.working_dir {
                None => r matches Err(e) && e is WorkingDirNotFound,
                Some(wd) => if !upsert && !target_exists {
                    r matches Err(e) && e is DisallowedUpsert
                } else {
                    r matches Ok(plan) && plan@ == save_plan_model(self@, wd)
                },
            },
    {
        let file = match self.settings_file() {
            Ok(f) => f,
            Err(e) => return Err(e),
        };
        if !upsert && !target_exists {
            return Err(SettingsError::DisallowedUpsert);
        }
        let mut dirs: Vec<String> = Vec::new();
        match &self.working_dir {
            Some(wd) => dirs.push(wd.clone()),
            None => {},
        }
        if !self.headless {
            match &self.states_dir {
                Some(sd) => dirs.push(sd.clone()),
                None => {},
            }
        }
        let plan = SavePlan { create_dirs: dirs, file };
        proof {
            assert(plan@.create_dirs =~= save_plan_model(self@, self@.working_dir->Some_0).create_dirs);
        }
        Ok(plan)
    }

    /// The registry file of these settings: the first registry file found in
    /// the states directory, else `active.gwsg` there. Headless settings
    /// have no registry.
    pub fn get_save_state(&self) -> (r: Result<String, SettingsError>)
        ensures
            self.headless <==> (r matches Err(e) && e is DisallowedHeadless),
            !self.headless ==> (r is Ok <==> glob_pattern_ok(
                registry_pattern_text(states_dir_text(self@)),
            )),
            !self.headless && r is Err ==> (r matches Err(e) && e is Pattern),
            r matches Ok(p) ==> exists|first: Option<Option<String>>|
                p@ == registry_choice(states_dir_text(self@), first),
    {
        if self.headless {
            return Err(SettingsError::DisallowedHeadless);
        }
        let dir = match &self.states_dir {
            Some(d) => d.clone(),
            None => String::new(),
        };
        let pattern = registry_pattern(dir.as_str());
        match first_glob_match(pattern.as_str()) {
            Ok(first) => Ok(registry_path_from(dir.as_str(), first)),
            Err(_) => Err(SettingsError::Pattern),
        }
    }

    pub fn get_working_dir(&self) -> (r: Option<String>)
        ensures
            opt_text(r) == self@.working_dir,
    {
        copy_opt(&self.working_dir)
    }

    pub fn get_states_dir(&self) -> (r: Option<String>)
        ensures
            opt_text(r) == self@.states_dir,
    {
        copy_opt(&self.states_dir)
    }

    pub fn get_plugins(&self) -> (r: &Vec<Plugin>)
        ensures
            plugins_view(r@) == self@.plugins,
    {
        &self.plugins
    }

    pub fn get_headless(&self) -> (r: bool)
        ensures
            r == self.headless,
    {
        self.headless
    }

    pub fn get_switch_on_add(&self) -> (r: bool)
        ensures
            r == self.switch_on_add,
    {
        self.switch_on_add
    }
}

/// What writing the settings stands for.
pub struct SavePlanModel {
    pub create_dirs: Seq<Seq<char>>,
    pub file: Seq<char>,
}

/// The directories to create, if missing, and the file to write the
/// settings to.
#[derive(Debug)]
pub struct SavePlan {
    pub create_dirs: Vec<String>,
    pub file: String,
}

impl View for SavePlan {
    type V = SavePlanModel;

    open spec fn view(&self) -> SavePlanModel {
        SavePlanModel { create_dirs: self.create_dirs@.map_values(|d: String| d@), file: self.file@ }
    }
}

/// The plan for writing settings `s` whose working directory is `wd`: the
/// working directory and, in full mode, the states directory.
pub open spec fn save_plan_model(s: SettingsModel, wd: Seq<char>) -> SavePlanModel {
    SavePlanModel {
        create_dirs: if !s.headless && s.states_dir is Some {
            seq![wd, s.states_dir->Some_0]
        } else {
            seq![wd]
        },
        file: settings_file_in(wd, s.headless),
    }
}

/// Where the settings of a home directory can be: the headless marker file,
/// the working directory, and the settings file inside it.
#[derive(Debug)]
pub struct SettingsPaths {
    pub marker_file: String,
    pub working_dir: String,
    pub settings_file: String,
}

impl SettingsPaths {
    pub fn from_home(home: &str) -> (r: SettingsPaths)
        ensures
            r.marker_file@ == path_join(home@, ".gwrc"@),
            r.working_dir@ == default_working_dir(home@),
            r.settings_file@ == settings_file_in(default_working_dir(home@), false),
    {
        let wd = join_path(home, ".godwit");
        let settings_file = join_path(wd.as_str(), "settings.gwcore");
        SettingsPaths { marker_file: join_path(home, ".gwrc"), working_dir: wd, settings_file }
    }
}

/// The settings file to read, given which of the places exist: the marker
/// file first, then the settings file. When neither exists, the error names
/// the settings file if the working directory exists (a damaged setup),
/// else the working directory (never set up).
pub fn locate(
    paths: &SettingsPaths,
    marker_exists: bool,
    settings_exists: bool,
    working_dir_exists: bool,
) -> (r: Result<String, SettingsError>)
    ensures
        marker_exists ==> (r matches Ok(p) && p@ == paths.marker_file@),
        !marker_exists && settings_exists ==> (r matches Ok(p) && p@ == paths.settings_file@),
        !marker_exists && !settings_exists && working_dir_exists ==> (r matches Err(
            SettingsError::SettingsNotFound { file: f },
        ) && f@ == paths.settings_file@),
        !marker_exists && !settings_exists && !working_dir_exists ==> (r matches Err(
            SettingsError::SettingsNotFound { file: f },
        ) && f@ == paths.working_dir@),
{
    if marker_exists {
        Ok(paths.marker_file.clone())
    } else if settings_exists {
        Ok(paths.settings_file.clone())
    } else if working_dir_exists {
        Err(SettingsError::SettingsNotFound { file: paths.settings_file.clone() })
    } else {
        Err(SettingsError::SettingsNotFound { file: paths.working_dir.clone() })
    }
}

/// What purging the settings removes.
#[derive(Debug, PartialEq, Eq)]
pub enum PurgeAction {
    /// Remove this one file.
    RemoveFile { path: String },
    /// Remove this directory and everything in it.
    RemoveDirAll { path: String },
}

/// What to remove, given which places exist: the marker file if present;
/// else, in the working directory, the whole tree when `purge_states`, or
/// only the settings file. Fails when neither exists.
pub fn purge_settings(
    paths: &SettingsPaths,
    purge_states: bool,
    marker_exists: bool,
    working_dir_exists: bool,
) -> (r: Result<PurgeAction, SettingsError>)
    ensures
        marker_exists ==> (r matches Ok(PurgeAction::RemoveFile { path: p }) && p@
            == paths.marker_file@),
        !marker_exists && working_dir_exists && purge_states ==> (r matches Ok(
            PurgeAction::RemoveDirAll { path: p },
        ) && p@ == paths.working_dir@),
        !marker_exists && working_dir_exists && !purge_states ==> (r matches Ok(
            PurgeAction::RemoveFile { path: p },
        ) && p@ == paths.settings_file@),
        !marker_exists && !working_dir_exists ==> (r matches Err(e) && e is WorkingDirNotFound),
{
    if marker_exists {
        Ok(PurgeAction::RemoveFile { path: paths.marker_file.clone() })
    } else if working_dir_exists {
        if purge_states {
            Ok(PurgeAction::RemoveDirAll { path: paths.working_dir.clone() })
        } else {
            Ok(PurgeAction::RemoveFile { path: paths.settings_file.clone() })
        }
    } else {
        Err(SettingsError::WorkingDirNotFound)
    }
}

} // verus!
