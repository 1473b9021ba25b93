//! The configuration of the tool: the libraries, the alias groups and the
//! project types that the user has named, and what a project records of
//! itself.

use crate::error::{not_found_error, ConfigError, ConfigErrorView};
use crate::path::{join, join_spec};
use crate::registry::Registry;
use vstd::prelude::*;

verus! {

/// An owned copy of `text`, where there is one.
pub(crate) fn owned_text(text: Option<&str>) -> (owned: Option<String>)
    ensures
        owned.deep_view() == text.deep_view(),
{
    match text {
        Some(text) => Some(text.to_owned()),
        None => None,
    }
}

/// A directory that receives a link to each project of an alias group.
#[derive(Debug)]
pub struct Alias {
    pub path: String,
}

/// The model of an [`Alias`].
pub struct AliasView {
    pub path: Seq<char>,
}

impl View for Alias {
    type V = AliasView;

    open spec fn view(&self) -> AliasView {
        AliasView { path: self.path@ }
    }
}

impl DeepView for Alias {
    type V = AliasView;

    open spec fn deep_view(&self) -> AliasView {
        self@
    }
}

impl Clone for Alias {
    fn clone(&self) -> (copy: Alias)
        ensures
            copy@ == self@,
    {
        Alias { path: self.path.clone() }
    }
}

impl Alias {
    /// The alias whose links go into the directory `path`.
    pub fn new(path: &str) -> (alias: Alias)
        ensures
            alias@ == (AliasView { path: path@ }),
    {
        Alias { path: path.to_owned() }
    }
}

/// A template for projects: the alias groups that a project of this type
/// joins by default, the command that builds it and the command that opens
/// it.
#[derive(Debug)]
pub struct ProjectType {
    pub default_alias_groups: Option<Vec<String>>,
    pub builder: Option<String>,
    pub opener: Option<String>,
}

/// The model of a [`ProjectType`].
pub struct ProjectTypeView {
    pub default_alias_groups: Option<Seq<Seq<char>>>,
    pub builder: Option<Seq<char>>,
    pub opener: Option<Seq<char>>,
}

impl View for ProjectType {
    type V = ProjectTypeView;

    open spec fn view(&self) -> ProjectTypeView {
        ProjectTypeView {
            default_alias_groups: self.default_alias_groups.deep_view(),
            builder: self.builder.deep_view(),
            opener: self.opener.deep_view(),
        }
    }
}

impl DeepView for ProjectType {
    type V = ProjectTypeView;

    open spec fn deep_view(&self) -> ProjectTypeView {
        self@
    }
}

impl Clone for ProjectType {
    fn clone(&self) -> (copy: ProjectType)
        ensures
            copy@ == self@,
    {
        let default_alias_groups = match &self.default_alias_groups {
            Some(groups) => {
                let copies = groups.clone();
                assert(copies.deep_view() =~= groups.deep_view());
                Some(copies)
            },
            None => None,
        };
        ProjectType {
            default_alias_groups,
            builder: self.builder.clone(),
            opener: self.opener.clone(),
        }
    }
}

impl ProjectType {
    /// The project type with these defaults and commands.
    pub fn new(
        default_alias_groups: Option<Vec<String>>,
        builder: Option<&str>,
        opener: Option<&str>,
    ) -> (project_type: ProjectType)
        ensures
            project_type@ == (ProjectTypeView {
                default_alias_groups: default_alias_groups.deep_view(),
                builder: builder.deep_view(),
                opener: opener.deep_view(),
            }),
    {
        ProjectType {
            default_alias_groups,
            builder: owned_text(builder),
            opener: owned_text(opener),
        }
    }
}

/// What a project records of itself, in a file of its own directory.
#[derive(Debug)]
pub struct ProjectConfig {
    pub project_type: Option<String>,
    pub opener: Option<String>,
    pub builder: Option<String>,
}

/// The model of a [`ProjectConfig`].
pub struct ProjectConfigView {
    pub project_type: Option<Seq<char>>,
    pub opener: Option<Seq<char>>,
    pub builder: Option<Seq<char>>,
}

impl View for ProjectConfig {
    type V = ProjectConfigView;

    open spec fn view(&self) -> ProjectConfigView {
        ProjectConfigView {
            project_type: self.project_type.deep_view(),
            opener: self.opener.deep_view(),
            builder: self.builder.deep_view(),
        }
    }
}

impl DeepView for ProjectConfig {
    type V = ProjectConfigView;

    open spec fn deep_view(&self) -> ProjectConfigView {
        self@
    }
}

impl Clone for ProjectConfig {
    fn clone(&self) -> (copy: ProjectConfig)
        ensures
            copy@ == self@,
    {
        ProjectConfig {
            project_type: self.project_type.clone(),
            opener: self.opener.clone(),
            builder: self.builder.clone(),
        }
    }
}

impl Default for ProjectConfig {
    fn default() -> (config: ProjectConfig)
        ensures
            config@ == (ProjectConfigView { project_type: None, opener: None, builder: None }),
    {
        ProjectConfig { project_type: None, opener: None, builder: None }
    }
}

impl ProjectConfig {
    /// Where a project keeps its configuration, from its own directory.
    pub const PROJECT_ROOT_REL_PATH: &'static str = ".pm/project.toml";

    /// The configuration of a project of type `project_type`, with its own
    /// commands to open and to build it.
    pub fn new(project_type: Option<String>, opener: Option<String>, builder: Option<String>) -> (config:
        ProjectConfig)
        ensures
            config@ == (ProjectConfigView {
                project_type: project_type.deep_view(),
                opener: opener.deep_view(),
                builder: builder.deep_view(),
            }),
    {
        ProjectConfig { project_type, opener, builder }
    }
}

/// The configuration of the tool. Each of the three registries may be
/// absent, as it is in a configuration file that has no table for it.
#[derive(Debug)]
pub struct Config {
    default_lib: Option<String>,
    library_paths: Option<Registry<String>>,
    alias_groups: Option<Registry<Alias>>,
    project_types: Option<Registry<ProjectType>>,
}

/// The model of a [`Config`]: the name of the default library, and the three
/// registries as maps from names.
pub struct ConfigView {
    pub default_lib: Option<Seq<char>>,
    pub library_paths: Option<Map<Seq<char>, Seq<char>>>,
    pub alias_groups: Option<Map<Seq<char>, AliasView>>,
    pub project_types: Option<Map<Seq<char>, ProjectTypeView>>,
}

/// The name of the library that every loaded configuration has.
pub open spec fn default_library_name() -> Seq<char> {
    "default"@
}

/// Where the library named `default` lies unless the configuration says
/// otherwise, under the directory `data_home`.
pub open spec fn default_library_path(data_home: Seq<char>) -> Seq<char> {
    join_spec(data_home, "project_manager/projects"@)
}

/// Where the configuration is kept: at `path`, or else in its usual place
/// under the directory `config_home`.
pub open spec fn config_file_path(path: Option<Seq<char>>, config_home: Seq<char>) -> Seq<char> {
    match path {
        Some(path) => path,
        None => join_spec(config_home, "project_manager/config.toml"@),
    }
}

/// What a lookup of a library reports when the name has no entry.
pub open spec fn library_not_found() -> ConfigErrorView {
    not_found_error("Could not find library path"@)
}

/// The map of a registry that may be absent, an absent one taken as empty.
pub open spec fn or_empty<T>(registry: Option<Map<Seq<char>, T>>) -> Map<Seq<char>, T> {
    match registry {
        Some(entries) => entries,
        None => Map::empty(),
    }
}

impl ConfigView {
    /// The configuration after `alias` is entered under `name`, in a registry
    /// that is made for it if there is none.
    pub open spec fn add_alias_group(self, name: Seq<char>, alias: AliasView) -> ConfigView {
        ConfigView { alias_groups: Some(or_empty(self.alias_groups).insert(name, alias)), ..self }
    }

    /// The alias group entered under `name`.
    pub open spec fn alias_group(self, name: Seq<char>) -> Option<AliasView> {
        if or_empty(self.alias_groups).contains_key(name) {
            Some(or_empty(self.alias_groups)[name])
        } else {
            None
        }
    }

    /// The configuration without the alias group `name`.
    pub open spec fn delete_alias_group(self, name: Seq<char>) -> ConfigView
        recommends
            self.alias_groups is Some,
    {
        ConfigView { alias_groups: Some(or_empty(self.alias_groups).remove(name)), ..self }
    }

    /// The configuration after the library `name` is entered with `path`.
    pub open spec fn add_lib(self, name: Seq<char>, path: Seq<char>) -> ConfigView
        recommends
            self.library_paths is Some,
    {
        ConfigView { library_paths: Some(or_empty(self.library_paths).insert(name, path)), ..self }
    }

    /// The configuration with `name` as its default library.
    pub open spec fn set_default_lib(self, name: Seq<char>) -> ConfigView {
        ConfigView { default_lib: Some(name), ..self }
    }

    /// The library that is meant by `name`: the one named, or else the
    /// default library of the configuration, or else the one named `default`.
    pub open spec fn lib_name(self, name: Option<Seq<char>>) -> Seq<char> {
        match name {
            Some(name) => name,
            None => match self.default_lib {
                Some(default_lib) => default_lib,
                None => default_library_name(),
            },
        }
    }

    /// The path of the library that is meant by `name`, if it has an entry.
    pub open spec fn lib_path(self, name: Option<Seq<char>>) -> Option<Seq<char>> {
        if or_empty(self.library_paths).contains_key(self.lib_name(name)) {
            Some(or_empty(self.library_paths)[self.lib_name(name)])
        } else {
            None
        }
    }

    /// The configuration after `project_type` is entered under `name`, in a
    /// registry that is made for it if there is none.
    pub open spec fn add_project_type(self, name: Seq<char>, project_type: ProjectTypeView) -> ConfigView {
        ConfigView {
            project_types: Some(or_empty(self.project_types).insert(name, project_type)),
            ..self
        }
    }

    /// The project type entered under `name`.
    pub open spec fn project_type(self, name: Seq<char>) -> Option<ProjectTypeView> {
        if or_empty(self.project_types).contains_key(name) {
            Some(or_empty(self.project_types)[name])
        } else {
            None
        }
    }

    /// The configuration as it is after loading: the registries of libraries
    /// and of alias groups are there, and the library named `default` has a
    /// path, its own if it had one. The project types are left as they are.
    pub open spec fn with_defaults(self, data_home: Seq<char>) -> ConfigView {
        let library_paths = or_empty(self.library_paths);
        ConfigView {
            library_paths: Some(
                if library_paths.contains_key(default_library_name()) {
                    library_paths
                } else {
                    library_paths.insert(default_library_name(), default_library_path(data_home))
                },
            ),
            alias_groups: Some(or_empty(self.alias_groups)),
            ..self
        }
    }

    /// Whether loading has nothing left to add to the configuration.
    pub open spec fn is_loaded(self) -> bool {
        &&& self.library_paths is Some
        &&& self.alias_groups is Some
        &&& self.library_paths->0.contains_key(default_library_name())
    }
}

/// Loading completes a configuration once and for all: what it yields is
/// loaded, and loading that again, with whatever directory for the default
/// library, yields the same.
pub proof fn lemma_load_is_idempotent(config: ConfigView, data_home: Seq<char>, other_home: Seq<char>)
    ensures
        config.with_defaults(data_home).is_loaded(),
        config.with_defaults(data_home).with_defaults(other_home) == config.with_defaults(
            data_home,
        ),
{
}

/// Loading changes nothing in a configuration that is loaded.
pub proof fn lemma_load_keeps_loaded(config: ConfigView, data_home: Seq<char>)
    requires
        config.is_loaded(),
    ensures
        config.with_defaults(data_home) == config,
{
}

/// Loading adds to the libraries and never overwrites: a library that has a
/// path keeps it, the one named `default` too, and the only library that can
/// come in is the one named `default`, with its path under `data_home`.
pub proof fn lemma_load_is_additive(config: ConfigView, data_home: Seq<char>, name: Seq<char>)
    ensures
        or_empty(config.library_paths).contains_key(name) ==> {
            &&& config.with_defaults(data_home).library_paths->0.contains_key(name)
            &&& config.with_defaults(data_home).library_paths->0[name] == config.library_paths->0[name]
        },
        !or_empty(config.library_paths).contains_key(name) && name != default_library_name()
            ==> !config.with_defaults(data_home).library_paths->0.contains_key(name),
        !or_empty(config.library_paths).contains_key(default_library_name()) ==> {
            &&& config.with_defaults(data_home).library_paths->0.contains_key(
                default_library_name(),
            )
            &&& config.with_defaults(data_home).library_paths->0[default_library_name()]
                == default_library_path(data_home)
        },
{
}

/// Where no library is named, the default library of the configuration is
/// meant, and where it has none, the library named `default`, which a loaded
/// configuration always has.
pub proof fn lemma_lib_path_without_name(config: ConfigView)
    ensures
        config.default_lib matches Some(default_lib) ==> config.lib_path(None) == config.lib_path(
            Some(default_lib),
        ),
        config.default_lib is None ==> config.lib_path(None) == config.lib_path(
            Some(default_library_name()),
        ),
        config.default_lib is None && config.is_loaded() ==> config.lib_path(None) == Some(
            config.library_paths->0[default_library_name()],
        ),
{
}

/// A lookup of a library yields the path that is entered under the name
/// that is meant, and none where that name has no entry.
pub proof fn lemma_lib_path_is_an_entry(config: ConfigView, name: Option<Seq<char>>)
    ensures
        match config.lib_path(name) {
            Some(path) => {
                &&& config.library_paths is Some
                &&& config.library_paths->0.contains_key(config.lib_name(name))
                &&& config.library_paths->0[config.lib_name(name)] == path
            },
            None => config.library_paths matches Some(paths) ==> !paths.contains_key(
                config.lib_name(name),
            ),
        },
{
}

/// Entering an alias group twice under one name leaves what the second
/// entry alone would have left: the second overwrites the first, and an
/// entry made again changes nothing.
pub proof fn lemma_add_alias_group_twice(
    config: ConfigView,
    name: Seq<char>,
    first: AliasView,
    second: AliasView,
)
    ensures
        config.add_alias_group(name, first).add_alias_group(name, second)
            == config.add_alias_group(name, second),
        config.add_alias_group(name, second).add_alias_group(name, second)
            == config.add_alias_group(name, second),
        config.add_alias_group(name, first).add_alias_group(name, second).alias_group(name)
            == Some(second),
{
    let once = config.add_alias_group(name, second);
    let twice = config.add_alias_group(name, first).add_alias_group(name, second);
    assert(twice.alias_groups->0 =~= once.alias_groups->0);
    assert(once.add_alias_group(name, second).alias_groups->0 =~= once.alias_groups->0);
}

/// The map of a registry that may be absent.
pub open spec fn registry_view<V: View>(registry: Option<Registry<V>>) -> Option<
    Map<Seq<char>, V::V>,
> {
    match registry {
        Some(registry) => Some(registry@),
        None => None,
    }
}

impl View for Config {
    type V = ConfigView;

    closed spec fn view(&self) -> ConfigView {
        ConfigView {
            default_lib: self.default_lib.deep_view(),
            library_paths: registry_view(self.library_paths),
            alias_groups: registry_view(self.alias_groups),
            project_types: registry_view(self.project_types),
        }
    }
}

impl Config {
    /// The configuration with these parts, as they were read.
    pub fn new(
        default_lib: Option<String>,
        library_paths: Option<Registry<String>>,
        alias_groups: Option<Registry<Alias>>,
        project_types: Option<Registry<ProjectType>>,
    ) -> (config: Config)
        ensures
            config@ == (ConfigView {
                default_lib: default_lib.deep_view(),
                library_paths: registry_view(library_paths),
                alias_groups: registry_view(alias_groups),
                project_types: registry_view(project_types),
            }),
    {
        Config { default_lib, library_paths, alias_groups, project_types }
    }

    /// The name of the default library.
    pub fn default_lib(&self) -> (name: Option<&str>)
        ensures
            name.deep_view() == self@.default_lib,
    {
        match &self.default_lib {
            Some(name) => Some(name.as_str()),
            None => None,
        }
    }

    /// The registry of the libraries.
    pub fn library_paths(&self) -> (registry: Option<&Registry<String>>)
        ensures
            registry is Some <==> self@.library_paths is Some,
            registry matches Some(paths) ==> self@.library_paths == Some(paths@),
    {
        self.library_paths.as_ref()
    }

    /// The registry of the alias groups.
    pub fn alias_groups(&self) -> (registry: Option<&Registry<Alias>>)
        ensures
            registry is Some <==> self@.alias_groups is Some,
            registry matches Some(groups) ==> self@.alias_groups == Some(groups@),
    {
        self.alias_groups.as_ref()
    }

    /// The registry of the project types.
    pub fn project_types(&self) -> (registry: Option<&Registry<ProjectType>>)
        ensures
            registry is Some <==> self@.project_types is Some,
            registry matches Some(types) ==> self@.project_types == Some(types@),
    {
        self.project_types.as_ref()
    }

    /// Where the configuration is kept: at `path`, or else in its usual place
    /// under `config_home`.
    pub fn file_path(path: Option<&str>, config_home: &str) -> (file: String)
        ensures
            file@ == config_file_path(path.deep_view(), config_home@),
    {
        match path {
            Some(path) => path.to_owned(),
            None => join(config_home, "project_manager/config.toml"),
        }
    }

    /// Completes a configuration that was read from its file: the registries
    /// of libraries and of alias groups are made if they are absent, and the
    /// library named `default` gets its path under `data_home` unless it has
    /// one already.
    pub fn load(decoded: Config, data_home: &str) -> (config: Config)
        ensures
            config@ == decoded@.with_defaults(data_home@),
            config@.is_loaded(),
            config@.library_paths->0[default_library_name()] == if or_empty(
                decoded@.library_paths,
            ).contains_key(default_library_name()) {
                decoded@.library_paths->0[default_library_name()]
            } else {
                default_library_path(data_home@)
            },
    {
        let Config { default_lib, library_paths, alias_groups, project_types } = decoded;
        let mut library_paths = match library_paths {
            Some(paths) => paths,
            None => Registry::new(),
        };
        let alias_groups = match alias_groups {
            Some(groups) => groups,
            None => Registry::new(),
        };
        if !library_paths.contains("default") {
            library_paths.insert("default".to_owned(), join(data_home, "project_manager/projects"));
        }
        Config {
            default_lib,
            library_paths: Some(library_paths),
            alias_groups: Some(alias_groups),
            project_types,
        }
    }

    /// Enters `alias` under `name`, in place of what was there under that
    /// name. The registry is made if it is absent.
    pub fn add_alias_group(&mut self, name: String, alias: &Alias)
        ensures
            final(self)@ == old(self)@.add_alias_group(name@, alias@),
    {
        let mut alias_groups = match self.alias_groups.take() {
            Some(groups) => groups,
            None => Registry::new(),
        };
        alias_groups.insert(name, alias.clone());
        self.alias_groups = Some(alias_groups);
    }

    /// The alias group `name`, in a configuration that has the registry.
    pub fn get_alias_group(&self, name: &str) -> (found: Option<&Alias>)
        requires
            self@.alias_groups is Some,
        ensures
            found.deep_view() == self@.alias_group(name@),
    {
        self.find_alias_group(name)
    }

    /// The alias group `name`; none where the registry is absent.
    pub(crate) fn find_alias_group(&self, name: &str) -> (found: Option<&Alias>)
        ensures
            found.deep_view() == self@.alias_group(name@),
    {
        match &self.alias_groups {
            Some(groups) => groups.get(name),
            None => None,
        }
    }

    /// Takes the alias group `name` out, in a configuration that has the
    /// registry, and returns it.
    pub fn delete_alias_group(&mut self, name: &str) -> (deleted: Option<Alias>)
        requires
            old(self)@.alias_groups is Some,
        ensures
            final(self)@ == old(self)@.delete_alias_group(name@),
            deleted.deep_view() == old(self)@.alias_group(name@),
    {
        match self.alias_groups.take() {
            Some(groups) => {
                let mut groups = groups;
                let deleted = groups.remove(name);
                self.alias_groups = Some(groups);
                deleted
            },
            None => None,
        }
    }

    /// Enters the library `name` with `path`, in place of what was there
    /// under that name, in a configuration that has the registry. Whether the
    /// library is meant as the default changes nothing here: the default is
    /// set by [`Config::set_default_lib`].
    #[allow(unused_variables)]
    pub fn add_lib(&mut self, name: String, path: &str, default: bool)
        requires
            old(self)@.library_paths is Some,
        ensures
            final(self)@ == old(self)@.add_lib(name@, path@),
    {
        match self.library_paths.take() {
            Some(paths) => {
                let mut paths = paths;
                paths.insert(name, path.to_owned());
                self.library_paths = Some(paths);
            },
            None => {},
        }
    }

    /// Makes `name` the default library. The name need not have an entry.
    pub fn set_default_lib(&mut self, name: String)
        ensures
            final(self)@ == old(self)@.set_default_lib(name@),
    {
        self.default_lib = Some(name);
    }

    /// The path of the library that is meant by `name`, in a configuration
    /// that has the registry: the library named, or else the default library,
    /// or else the one named `default`. A library without an entry is
    /// reported as not found.
    pub fn get_lib_path(&self, name: Option<&str>) -> (found: Result<&str, ConfigError>)
        requires
            self@.library_paths is Some,
        ensures
            match found {
                Ok(path) => self@.lib_path(name.deep_view()) == Some(path@),
                Err(error) => self@.lib_path(name.deep_view()) is None && error@
                    == library_not_found(),
            },
    {
        self.find_lib_path(name)
    }

    /// The path of the library that is meant by `name`; not found where the
    /// registry is absent.
    pub(crate) fn find_lib_path(&self, name: Option<&str>) -> (found: Result<&str, ConfigError>)
        ensures
            match found {
                Ok(path) => self@.lib_path(name.deep_view()) == Some(path@),
                Err(error) => self@.lib_path(name.deep_view()) is None && error@
                    == library_not_found(),
            },
    {
        let wanted: &str = match name {
            Some(name) => name,
            None => match &self.default_lib {
                Some(default_lib) => default_lib.as_str(),
                None => "default",
            },
        };
        let found = match &self.library_paths {
            Some(paths) => paths.get(wanted),
            None => None,
        };
        match found {
            Some(path) => Ok(path.as_str()),
            None => Err(ConfigError::not_found("Could not find library path")),
        }
    }

    /// Enters the project type made of `default_alias_groups`, `builder` and
    /// `opener` under `name`, in place of what was there under that name. The
    /// registry is made if it is absent.
    pub fn add_project_type(
        &mut self,
        name: String,
        default_alias_groups: Option<Vec<String>>,
        builder: Option<&str>,
        opener: Option<&str>,
    )
        ensures
            final(self)@ == old(self)@.add_project_type(
                name@,
                ProjectTypeView {
                    default_alias_groups: default_alias_groups.deep_view(),
                    builder: builder.deep_view(),
                    opener: opener.deep_view(),
                },
            ),
    {
        let mut project_types = match self.project_types.take() {
            Some(types) => types,
            None => Registry::new(),
        };
        project_types.insert(name, ProjectType::new(default_alias_groups, builder, opener));
        self.project_types = Some(project_types);
    }

    /// The project type `name`, in a configuration that has the registry.
    pub fn get_project_type(&self, name: String) -> (found: Option<&ProjectType>)
        requires
            self@.project_types is Some,
        ensures
            found.deep_view() == self@.project_type(name@),
    {
        self.find_project_type(name.as_str())
    }

    /// The project type `name`; none where the registry is absent.
    pub(crate) fn find_project_type(&self, name: &str) -> (found: Option<&ProjectType>)
        ensures
            found.deep_view() == self@.project_type(name@),
    {
        match &self.project_types {
            Some(types) => types.get(name),
            None => None,
        }
    }
}

} // verus!
