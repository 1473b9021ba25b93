//! The making of a project: where it goes, what it records of itself, and
//! the links that lead to it. Nothing here touches the file system; a plan
//! says what is to be done there, and in which order.

use crate::config::{
    library_not_found, owned_text, Alias, AliasView, Config, ConfigView, ProjectConfig,
    ProjectConfigView, ProjectTypeView,
};
use crate::error::{not_found_error, ConfigError, ConfigErrorView};
use crate::path::{join, join_spec};
use vstd::prelude::*;

verus! {

/// `names` without the later occurrences of a name, in the order in which
/// each name first occurs.
pub open spec fn distinct(names: Seq<Seq<char>>) -> Seq<Seq<char>>
    decreases names.len(),
{
    if names.len() == 0 {
        Seq::empty()
    } else {
        let earlier = distinct(names.drop_last());
        if earlier.contains(names.last()) {
            earlier
        } else {
            earlier.push(names.last())
        }
    }
}

/// `distinct(names)` holds each of `names` once.
pub proof fn lemma_distinct(names: Seq<Seq<char>>)
    ensures
        distinct(names).no_duplicates(),
        forall|name: Seq<char>| distinct(names).contains(name) <==> names.contains(name),
    decreases names.len(),
{
    if names.len() > 0 {
        let front = names.drop_last();
        let earlier = distinct(front);
        lemma_distinct(front);
        assert forall|name: Seq<char>| distinct(names).contains(name) <==> names.contains(
            name,
        ) by {
            if names.contains(name) {
                let i = names.index_of(name);
                if i < front.len() {
                    assert(front[i] == name);
                }
            }
            if front.contains(name) {
                let i = front.index_of(name);
                assert(names[i] == name);
            }
            if earlier.contains(name) {
                let i = earlier.index_of(name);
                assert(earlier.push(names.last())[i] == name);
            }
            assert(names[names.len() - 1] == names.last());
            if !earlier.contains(names.last()) {
                assert(earlier.push(names.last())[earlier.len() as int] == names.last());
            }
        }
    }
}

/// The alias groups that are asked for: the defaults of the project type,
/// then the group that was named beside them.
pub open spec fn requested_groups(defaults: Option<Seq<Seq<char>>>, extra: Option<Seq<char>>) -> Seq<
    Seq<char>,
> {
    let defaults = match defaults {
        Some(defaults) => defaults,
        None => Seq::empty(),
    };
    match extra {
        Some(extra) => defaults.push(extra),
        None => defaults,
    }
}

/// What is reported when a project type is named that has no entry.
pub open spec fn project_type_not_found() -> ConfigErrorView {
    not_found_error("Could not find project type"@)
}

/// What is reported when an alias group is named that has no entry.
pub open spec fn alias_not_found() -> ConfigErrorView {
    not_found_error("Could not find alias"@)
}

/// Whether `project_type` names a project type that has no entry.
pub open spec fn names_unknown_type(config: ConfigView, project_type: Option<Seq<char>>) -> bool {
    project_type matches Some(name) && config.project_type(name) is None
}

/// The alias groups that a new project joins: the defaults of its type and
/// the group named beside them, each once. There are none to speak of when
/// the type has no entry.
pub open spec fn alias_groups_of(
    config: ConfigView,
    project_type: Option<Seq<char>>,
    alias_group: Option<Seq<char>>,
) -> Option<Seq<Seq<char>>> {
    match project_type {
        Some(name) => match config.project_type(name) {
            Some(found) => Some(distinct(requested_groups(found.default_alias_groups, alias_group))),
            None => None,
        },
        None => Some(distinct(requested_groups(None, alias_group))),
    }
}

/// A link to a project, in the directory of an alias group.
#[derive(Debug)]
pub struct Link {
    /// The alias group.
    pub group: String,
    /// Where the link is made.
    pub path: String,
}

/// The model of a [`Link`].
pub struct LinkView {
    pub group: Seq<char>,
    pub path: Seq<char>,
}

impl View for Link {
    type V = LinkView;

    open spec fn view(&self) -> LinkView {
        LinkView { group: self.group@, path: self.path@ }
    }
}

impl DeepView for Link {
    type V = LinkView;

    open spec fn deep_view(&self) -> LinkView {
        self@
    }
}

/// How many of `groups`, from the first on, have an entry in the
/// configuration before one has none.
pub open spec fn linked_count(config: ConfigView, groups: Seq<Seq<char>>) -> nat
    decreases groups.len(),
{
    if groups.len() == 0 || config.alias_group(groups[0]) is None {
        0
    } else {
        1 + linked_count(config, groups.drop_first())
    }
}

/// `linked_count` is the one position up to which every group has an entry
/// and at which, if it is a position of `groups`, the group has none.
pub proof fn lemma_linked_count(config: ConfigView, groups: Seq<Seq<char>>, count: int)
    requires
        0 <= count <= groups.len(),
        forall|i: int| 0 <= i < count ==> config.alias_group(#[trigger] groups[i]) is Some,
        count < groups.len() ==> config.alias_group(groups[count]) is None,
    ensures
        linked_count(config, groups) == count,
    decreases groups.len(),
{
    if count > 0 {
        let rest = groups.drop_first();
        assert forall|i: int| 0 <= i < count - 1 implies config.alias_group(
            #[trigger] rest[i],
        ) is Some by {
            assert(rest[i] == groups[i + 1]);
        }
        lemma_linked_count(config, rest, count - 1);
    }
}

/// The link to the project `name` in the alias group `group`.
pub open spec fn link_of(config: ConfigView, group: Seq<char>, name: Seq<char>) -> LinkView
    recommends
        config.alias_group(group) is Some,
{
    LinkView { group, path: join_spec(config.alias_group(group)->0.path, name) }
}

/// The links to the project `name` that are made for `groups`: one for each
/// group, in their order, up to the first that has no entry.
pub open spec fn links_of(config: ConfigView, groups: Seq<Seq<char>>, name: Seq<char>) -> Seq<
    LinkView,
> {
    Seq::new(linked_count(config, groups), |i: int| link_of(config, groups[i], name))
}

/// The failure that ends the linking for `groups`: one of them has no entry.
pub open spec fn links_failure(config: ConfigView, groups: Seq<Seq<char>>) -> Option<
    ConfigErrorView,
> {
    if linked_count(config, groups) < groups.len() {
        Some(alias_not_found())
    } else {
        None
    }
}

/// What making a project comes to: a directory and a file in it that are
/// created, what is written to the file, the links that are made to the file
/// one after the other, and the failure, if there is one, at which the
/// making stops after these.
#[derive(Debug)]
pub struct ProjectPlan {
    /// The directory of the project.
    pub project_dir: String,
    /// The directory that is created, with those above it.
    pub config_dir: String,
    /// The file that is created in it, and at which every link points.
    pub config_path: String,
    /// What is written to the file.
    pub project_config: ProjectConfig,
    /// The links that are made, in this order.
    pub links: Vec<Link>,
    /// What stops the making once the links are made.
    pub failure: Option<ConfigError>,
}

/// The model of a [`ProjectPlan`].
pub struct ProjectPlanView {
    pub project_dir: Seq<char>,
    pub config_dir: Seq<char>,
    pub config_path: Seq<char>,
    pub project_config: ProjectConfigView,
    pub links: Seq<LinkView>,
    pub failure: Option<ConfigErrorView>,
}

impl View for ProjectPlan {
    type V = ProjectPlanView;

    open spec fn view(&self) -> ProjectPlanView {
        ProjectPlanView {
            project_dir: self.project_dir@,
            config_dir: self.config_dir@,
            config_path: self.config_path@,
            project_config: self.project_config@,
            links: self.links.deep_view(),
            failure: self.failure.deep_view(),
        }
    }
}

/// The plan for the project `name` in the library whose path is `lib_path`.
pub open spec fn plan_in(
    config: ConfigView,
    lib_path: Seq<char>,
    name: Seq<char>,
    project_type: Option<Seq<char>>,
    alias_group: Option<Seq<char>>,
) -> ProjectPlanView {
    let project_dir = join_spec(lib_path, name);
    let groups = alias_groups_of(config, project_type, alias_group);
    ProjectPlanView {
        project_dir,
        config_dir: join_spec(project_dir, ".pm"@),
        config_path: join_spec(project_dir, ProjectConfig::PROJECT_ROOT_REL_PATH@),
        project_config: ProjectConfigView { project_type, opener: None, builder: None },
        links: match groups {
            Some(groups) => links_of(config, groups, name),
            None => Seq::empty(),
        },
        failure: match groups {
            Some(groups) => links_failure(config, groups),
            None => Some(project_type_not_found()),
        },
    }
}

/// The plan for the project `name`, or the failure to find the library that
/// it is to go to.
pub open spec fn project_plan(
    config: ConfigView,
    name: Seq<char>,
    project_type: Option<Seq<char>>,
    alias_group: Option<Seq<char>>,
    lib: Option<Seq<char>>,
) -> Result<ProjectPlanView, ConfigErrorView> {
    match config.lib_path(lib) {
        Some(lib_path) => Ok(plan_in(config, lib_path, name, project_type, alias_group)),
        None => Err(library_not_found()),
    }
}

/// The alias groups of a new project are a set: none of them occurs twice,
/// and they are the defaults of the project type together with the group
/// named beside them.
pub proof fn lemma_alias_groups_are_a_union(
    config: ConfigView,
    project_type: Option<Seq<char>>,
    alias_group: Option<Seq<char>>,
)
    ensures
        alias_groups_of(config, project_type, alias_group) is None <==> names_unknown_type(
            config,
            project_type,
        ),
        alias_groups_of(config, project_type, alias_group) matches Some(groups) ==> {
            &&& groups.no_duplicates()
            &&& forall|group: Seq<char>|
                groups.contains(group) <==> {
                    ||| alias_group == Some(group)
                    ||| project_type matches Some(name) && config.project_type(name) matches Some(
                        found,
                    ) && found.default_alias_groups matches Some(defaults) && defaults.contains(
                        group,
                    )
                }
        },
{
    if let Some(groups) = alias_groups_of(config, project_type, alias_group) {
        let defaults = match project_type {
            Some(name) => config.project_type(name)->0.default_alias_groups,
            None => None,
        };
        let requested = requested_groups(defaults, alias_group);
        lemma_distinct(requested);
        assert forall|group: Seq<char>|
            groups.contains(group) <==> {
                ||| alias_group == Some(group)
                ||| defaults matches Some(listed) && listed.contains(group)
            } by {
            assert(distinct(requested).contains(group) <==> requested.contains(group));
            let listed = match defaults {
                Some(listed) => listed,
                None => Seq::empty(),
            };
            if requested.contains(group) {
                let i = requested.index_of(group);
                if i < listed.len() {
                    assert(listed[i] == group);
                }
            }
            if listed.contains(group) {
                let i = listed.index_of(group);
                assert(requested[i] == group);
            }
            if alias_group == Some(group) {
                assert(requested[listed.len() as int] == group);
            }
        }
    }
}

/// The links of a plan follow the alias groups in their order: each is the
/// link of its group, which has an entry, and they end before the first
/// group that has none. Nothing fails where every group has an entry.
pub proof fn lemma_links_follow_groups(config: ConfigView, groups: Seq<Seq<char>>, name: Seq<char>)
    ensures
        links_of(config, groups, name).len() <= groups.len(),
        forall|i: int|
            0 <= i < links_of(config, groups, name).len() ==> {
                &&& config.alias_group(groups[i]) matches Some(alias)
                &&& (#[trigger] links_of(config, groups, name)[i]) == (LinkView {
                    group: groups[i],
                    path: join_spec(alias.path, name),
                })
            },
        links_of(config, groups, name).len() < groups.len() ==> config.alias_group(
            groups[links_of(config, groups, name).len() as int],
        ) is None,
        links_failure(config, groups) is None <==> forall|i: int|
            0 <= i < groups.len() ==> config.alias_group(#[trigger] groups[i]) is Some,
    decreases groups.len(),
{
    if groups.len() > 0 && config.alias_group(groups[0]) is Some {
        let rest = groups.drop_first();
        lemma_links_follow_groups(config, rest, name);
        let count = linked_count(config, groups);
        assert forall|i: int| 0 <= i < count implies config.alias_group(groups[i]) is Some by {
            if i > 0 {
                assert(rest[i - 1] == groups[i]);
                assert(links_of(config, rest, name)[i - 1].group == rest[i - 1]);
            }
        }
        if count < groups.len() {
            assert(rest[count - 1] == groups[count as int]);
        }
        if links_failure(config, rest) is None {
            assert forall|i: int| 0 <= i < groups.len() implies config.alias_group(
                #[trigger] groups[i],
            ) is Some by {
                if i > 0 {
                    assert(rest[i - 1] == groups[i]);
                }
            }
        }
    }
}

/// A project type that is named and has no entry fails the plan before any
/// link: the plan still has the directory and the file of the project, which
/// are made first, and it has no link at all.
pub proof fn lemma_unknown_project_type_links_nothing(
    config: ConfigView,
    name: Seq<char>,
    project_type: Option<Seq<char>>,
    alias_group: Option<Seq<char>>,
    lib: Option<Seq<char>>,
)
    requires
        names_unknown_type(config, project_type),
    ensures
        match project_plan(config, name, project_type, alias_group, lib) {
            Ok(plan) => {
                &&& config.lib_path(lib) matches Some(lib_path)
                &&& plan.config_path == join_spec(
                    join_spec(lib_path, name),
                    ProjectConfig::PROJECT_ROOT_REL_PATH@,
                )
                &&& plan.links.len() == 0
                &&& plan.failure == Some(project_type_not_found())
            },
            Err(error) => config.lib_path(lib) is None && error == library_not_found(),
        },
{
}

/// The file of a project lies in the directory that is made for it, under
/// the name `project.toml`.
pub proof fn lemma_config_file_in_config_dir(project_dir: Seq<char>)
    ensures
        join_spec(project_dir, ProjectConfig::PROJECT_ROOT_REL_PATH@) == join_spec(
            join_spec(project_dir, ".pm"@),
            "project.toml"@,
        ),
{
    reveal_strlit(".pm");
    reveal_strlit("project.toml");
    reveal_strlit(".pm/project.toml");
    let dir = join_spec(project_dir, ".pm"@);
    assert(".pm"@ + seq!['/'] + "project.toml"@ =~= ".pm/project.toml"@);
    assert(dir[dir.len() - 1] == 'm');
    assert(join_spec(dir, "project.toml"@) =~= join_spec(project_dir, ".pm/project.toml"@));
}

/// Puts `name` at the end of `names` unless it is among them.
fn push_distinct(names: &mut Vec<String>, name: String)
    ensures
        final(names).deep_view() == if old(names).deep_view().contains(name@) {
            old(names).deep_view()
        } else {
            old(names).deep_view().push(name@)
        },
{
    let mut i: usize = 0;
    while i < names.len()
        invariant
            i <= names@.len(),
            *names == *old(names),
            forall|j: int| 0 <= j < i ==> names.deep_view()[j] != name@,
        decreases names@.len() - i,
    {
        if names[i] == name {
            assert(names.deep_view()[i as int] == name@);
            return ;
        }
        i += 1;
    }
    names.push(name);
    assert(names.deep_view() =~= old(names).deep_view().push(name@));
}

/// The alias groups that a new project joins: the defaults of its type, if
/// one is named, and the group `alias_group`, if one is named, each once. A
/// project type that has no entry in `config` is reported as not found.
pub fn project_alias_groups(
    project_type: Option<&str>,
    alias_group: Option<&str>,
    config: &Config,
) -> (groups: Result<Vec<String>, ConfigError>)
    ensures
        match groups {
            Ok(groups) => {
                &&& alias_groups_of(config@, project_type.deep_view(), alias_group.deep_view())
                    == Some(groups.deep_view())
                &&& groups.deep_view().no_duplicates()
            },
            Err(error) => {
                &&& alias_groups_of(config@, project_type.deep_view(), alias_group.deep_view())
                    is None
                &&& error@ == project_type_not_found()
            },
        },
{
    let mut groups: Vec<String> = Vec::new();
    let ghost mut defaults: Seq<Seq<char>> = Seq::empty();
    assert(groups.deep_view() =~= distinct(defaults));
    if let Some(name) = project_type {
        match config.find_project_type(name) {
            Some(found) => {
                if let Some(listed) = &found.default_alias_groups {
                    let mut i: usize = 0;
                    assert(listed.deep_view().take(0) =~= Seq::<Seq<char>>::empty());
                    while i < listed.len()
                        invariant
                            i <= listed@.len(),
                            groups.deep_view() == distinct(listed.deep_view().take(i as int)),
                        decreases listed@.len() - i,
                    {
                        push_distinct(&mut groups, listed[i].clone());
                        proof {
                            let longer = listed.deep_view().take(i + 1);
                            assert(longer.drop_last() =~= listed.deep_view().take(i as int));
                            assert(longer.last() == listed[i as int]@);
                        }
                        i += 1;
                    }
                    proof {
                        defaults = listed.deep_view();
                        assert(listed.deep_view().take(listed@.len() as int) =~= defaults);
                    }
                }
            },
            None => {
                return Err(ConfigError::not_found("Could not find project type"));
            },
        }
    }
    if let Some(extra) = alias_group {
        push_distinct(&mut groups, extra.to_owned());
        proof {
            assert(defaults.push(extra@).drop_last() =~= defaults);
        }
    }
    proof {
        lemma_distinct(
            requested_groups(
                match project_type.deep_view() {
                    Some(name) => config@.project_type(name)->0.default_alias_groups,
                    None => None,
                },
                alias_group.deep_view(),
            ),
        );
    }
    Ok(groups)
}

/// The links to the project `name` for the alias groups `groups`, one after
/// the other, and the failure that ends them: a group without an entry in
/// `config` is reported as not found, and neither it nor a later one is linked.
pub fn project_links(groups: &Vec<String>, name: &str, config: &Config) -> (fan_out: (
    Vec<Link>,
    Option<ConfigError>,
))
    ensures
        fan_out.0.deep_view() == links_of(config@, groups.deep_view(), name@),
        fan_out.1.deep_view() == links_failure(config@, groups.deep_view()),
{
    let mut links: Vec<Link> = Vec::new();
    let mut i: usize = 0;
    while i < groups.len()
        invariant
            i <= groups@.len(),
            links@.len() == i,
            forall|j: int|
                0 <= j < i ==> config@.alias_group(#[trigger] groups.deep_view()[j]) is Some,
            forall|j: int|
                0 <= j < i ==> #[trigger] links.deep_view()[j] == link_of(
                    config@,
                    groups.deep_view()[j],
                    name@,
                ),
        decreases groups@.len() - i,
    {
        match config.find_alias_group(groups[i].as_str()) {
            Some(alias) => {
                let ghost before = links.deep_view();
                let link = Link { group: groups[i].clone(), path: join(alias.path.as_str(), name) };
                assert(link@ == link_of(config@, groups.deep_view()[i as int], name@));
                links.push(link);
                assert(links.deep_view() =~= before.push(link@));
            },
            None => {
                proof {
                    lemma_linked_count(config@, groups.deep_view(), i as int);
                    assert(links.deep_view() =~= links_of(config@, groups.deep_view(), name@));
                }
                return (links, Some(ConfigError::not_found("Could not find alias")));
            },
        }
        i += 1;
    }
    proof {
        lemma_linked_count(config@, groups.deep_view(), i as int);
        assert(links.deep_view() =~= links_of(config@, groups.deep_view(), name@));
    }
    (links, None)
}

/// Plans the project `name`: in the library `lib`, or else in the default
/// library of `config`; of the type `project_type`, if one is named; linked
/// in the default alias groups of that type and in `alias_group`, if one is
/// named.
///
/// A library without an entry is reported as not found, and nothing is
/// planned. A project type or an alias group without an entry is the
/// failure of the plan: the directory and the file of the project are made
/// before it stops, and for a missing project type no link is.
pub fn create_project(
    name: &str,
    project_type: Option<&str>,
    alias_group: Option<&str>,
    lib: Option<&str>,
    config: &Config,
) -> (planned: Result<ProjectPlan, ConfigError>)
    ensures
        match planned {
            Ok(plan) => project_plan(
                config@,
                name@,
                project_type.deep_view(),
                alias_group.deep_view(),
                lib.deep_view(),
            ) == Ok::<ProjectPlanView, ConfigErrorView>(plan@),
            Err(error) => project_plan(
                config@,
                name@,
                project_type.deep_view(),
                alias_group.deep_view(),
                lib.deep_view(),
            ) == Err::<ProjectPlanView, ConfigErrorView>(error@),
        },
        planned is Err <==> config@.lib_path(lib.deep_view()) is None,
        planned matches Ok(plan) ==> (names_unknown_type(config@, project_type.deep_view())
            ==> plan@.links.len() == 0 && plan@.failure == Some(project_type_not_found())),
{
    let lib_path = match config.find_lib_path(lib) {
        Ok(lib_path) => lib_path,
        Err(error) => {
            return Err(error);
        },
    };
    let project_dir = join(lib_path, name);
    let config_dir = join(project_dir.as_str(), ".pm");
    let config_path = join(project_dir.as_str(), ProjectConfig::PROJECT_ROOT_REL_PATH);
    let project_config = ProjectConfig::new(owned_text(project_type), None, None);
    let (links, failure) = match project_alias_groups(project_type, alias_group, config) {
        Ok(groups) => project_links(&groups, name, config),
        Err(error) => (Vec::new(), Some(error)),
    };
    let plan = ProjectPlan { project_dir, config_dir, config_path, project_config, links, failure };
    assert(plan@.links =~= plan_in(
        config@,
        lib_path@,
        name@,
        project_type.deep_view(),
        alias_group.deep_view(),
    ).links);
    Ok(plan)
}

/// Enters the project type `name`, made of `default_alias_groups`, `builder`
/// and `opener`, in `config`.
pub fn define_project_type(
    name: &str,
    default_alias_groups: Option<Vec<String>>,
    builder: Option<&str>,
    opener: Option<&str>,
    config: &mut Config,
)
    ensures
        final(config)@ == old(config)@.add_project_type(
            name@,
            ProjectTypeView {
                default_alias_groups: default_alias_groups.deep_view(),
                builder: builder.deep_view(),
                opener: opener.deep_view(),
            },
        ),
{
    config.add_project_type(name.to_owned(), default_alias_groups, builder, opener);
}

/// Enters the alias group `name`, whose links go into the directory `path`,
/// in `config`.
pub fn create_alias_group(name: &str, path: &str, config: &mut Config)
    ensures
        final(config)@ == old(config)@.add_alias_group(name@, AliasView { path: path@ }),
{
    config.add_alias_group(name.to_owned(), &Alias::new(path));
}

/// Enters the library `name`, which lies at `path`, in a `config` that has
/// the registry of libraries, and makes it the default library if `default`
/// is set.
pub fn create_lib(name: &str, path: &str, default: bool, config: &mut Config)
    requires
        old(config)@.library_paths is Some,
    ensures
        final(config)@ == if default {
            old(config)@.add_lib(name@, path@).set_default_lib(name@)
        } else {
            old(config)@.add_lib(name@, path@)
        },
{
    config.add_lib(name.to_owned(), path, default);
    if default {
        config.set_default_lib(name.to_owned());
    }
}

} // verus!
