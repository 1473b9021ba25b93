use project_manager::{
    create_alias_group, create_lib, create_project, define_project_type, project_alias_groups,
    project_links, Alias, Config, ErrorKind, Link, Registry,
};

fn empty_config() -> Config {
    Config::load(Config::new(None, None, None, None), "/data")
}

fn scenario_config() -> Config {
    let mut libraries = Registry::new();
    libraries.insert("default".to_string(), "/projects".to_string());
    let mut config = Config::load(Config::new(None, Some(libraries), None, None), "/data");
    config.add_alias_group("work".to_string(), &Alias::new("/links/work"));
    config.add_alias_group("extra".to_string(), &Alias::new("/links/extra"));
    config.add_project_type("app".to_string(), Some(vec!["work".to_string()]), None, None);
    config
}

fn pairs(links: &[Link]) -> Vec<(String, String)> {
    links.iter().map(|link| (link.group.clone(), link.path.clone())).collect()
}

fn pair(group: &str, path: &str) -> (String, String) {
    (group.to_string(), path.to_string())
}

fn strings(names: &[&str]) -> Vec<String> {
    names.iter().map(|name| name.to_string()).collect()
}

#[test]
fn create_project_plans_the_file_and_both_links() {
    let config = scenario_config();
    let plan = create_project("foo", Some("app"), Some("extra"), None, &config).unwrap();
    assert_eq!(plan.project_dir, "/projects/foo");
    assert_eq!(plan.config_dir, "/projects/foo/.pm");
    assert_eq!(plan.config_path, "/projects/foo/.pm/project.toml");
    assert_eq!(plan.project_config.project_type, Some("app".to_string()));
    assert_eq!(plan.project_config.opener, None);
    assert_eq!(plan.project_config.builder, None);
    assert_eq!(
        pairs(&plan.links),
        vec![pair("work", "/links/work/foo"), pair("extra", "/links/extra/foo")]
    );
    assert!(plan.failure.is_none());
}

#[test]
fn create_project_with_an_unknown_type_fails_before_any_link() {
    let config = scenario_config();
    let plan = create_project("foo", Some("game"), Some("extra"), None, &config).unwrap();
    assert_eq!(plan.config_dir, "/projects/foo/.pm");
    assert_eq!(plan.config_path, "/projects/foo/.pm/project.toml");
    assert_eq!(plan.project_config.project_type, Some("game".to_string()));
    assert!(plan.links.is_empty());
    let failure = plan.failure.unwrap();
    assert_eq!(failure.kind(), ErrorKind::NotFound);
    assert_eq!(failure.to_string(), "Could not find project type");
}

#[test]
fn create_project_without_project_types_fails_before_any_link() {
    let mut config = empty_config();
    config.add_alias_group("extra".to_string(), &Alias::new("/links/extra"));
    let plan = create_project("foo", Some("app"), Some("extra"), None, &config).unwrap();
    assert_eq!(plan.config_path, "/data/project_manager/projects/foo/.pm/project.toml");
    assert!(plan.links.is_empty());
    assert_eq!(plan.failure.unwrap().message(), "Could not find project type");
}

#[test]
fn create_project_in_an_unknown_library_plans_nothing() {
    let config = scenario_config();
    let error = create_project("foo", Some("app"), None, Some("missing"), &config).unwrap_err();
    assert_eq!(error.kind(), ErrorKind::NotFound);
    assert_eq!(error.to_string(), "Could not find library path");
}

#[test]
fn create_project_without_libraries_plans_nothing() {
    let config = Config::new(None, None, None, None);
    let error = create_project("foo", None, None, None, &config).unwrap_err();
    assert_eq!(error.kind(), ErrorKind::NotFound);
}

#[test]
fn create_project_stops_at_an_unknown_alias_group() {
    let mut config = scenario_config();
    config.add_project_type(
        "site".to_string(),
        Some(strings(&["work", "gone", "extra"])),
        None,
        None,
    );
    let plan = create_project("foo", Some("site"), None, None, &config).unwrap();
    assert_eq!(pairs(&plan.links), vec![pair("work", "/links/work/foo")]);
    let failure = plan.failure.unwrap();
    assert_eq!(failure.kind(), ErrorKind::NotFound);
    assert_eq!(failure.to_string(), "Could not find alias");
}

#[test]
fn create_project_with_an_unknown_extra_group_links_the_defaults_first() {
    let config = scenario_config();
    let plan = create_project("foo", Some("app"), Some("gone"), None, &config).unwrap();
    assert_eq!(pairs(&plan.links), vec![pair("work", "/links/work/foo")]);
    assert_eq!(plan.failure.unwrap().message(), "Could not find alias");
}

#[test]
fn create_project_without_type_or_group_links_nothing() {
    let config = scenario_config();
    let plan = create_project("foo", None, None, None, &config).unwrap();
    assert_eq!(plan.config_path, "/projects/foo/.pm/project.toml");
    assert_eq!(plan.project_config.project_type, None);
    assert!(plan.links.is_empty());
    assert!(plan.failure.is_none());
}

#[test]
fn create_project_takes_the_library_that_is_named() {
    let mut config = scenario_config();
    config.add_lib("work".to_string(), "/w", false);
    let plan = create_project("foo", None, Some("extra"), Some("work"), &config).unwrap();
    assert_eq!(plan.project_dir, "/w/foo");
    assert_eq!(plan.config_path, "/w/foo/.pm/project.toml");
    assert_eq!(pairs(&plan.links), vec![pair("extra", "/links/extra/foo")]);
}

#[test]
fn create_project_takes_the_default_lib_of_the_config() {
    let mut config = scenario_config();
    create_lib("work", "/w/", true, &mut config);
    let plan = create_project("foo", None, None, None, &config).unwrap();
    assert_eq!(plan.project_dir, "/w/foo");
    assert_eq!(plan.config_dir, "/w/foo/.pm");
}

#[test]
fn create_project_links_a_group_once() {
    let mut config = scenario_config();
    config.add_project_type(
        "twice".to_string(),
        Some(strings(&["work", "extra", "work"])),
        None,
        None,
    );
    let plan = create_project("foo", Some("twice"), Some("extra"), None, &config).unwrap();
    assert_eq!(
        pairs(&plan.links),
        vec![pair("work", "/links/work/foo"), pair("extra", "/links/extra/foo")]
    );
    assert!(plan.failure.is_none());
}

#[test]
fn project_alias_groups_are_the_defaults_and_the_extra() {
    let config = scenario_config();
    assert_eq!(project_alias_groups(Some("app"), Some("extra"), &config).unwrap(), strings(&["work", "extra"]));
    assert_eq!(project_alias_groups(Some("app"), None, &config).unwrap(), strings(&["work"]));
    assert_eq!(project_alias_groups(None, Some("extra"), &config).unwrap(), strings(&["extra"]));
    assert_eq!(project_alias_groups(None, None, &config).unwrap(), strings(&[]));
}

#[test]
fn project_alias_groups_hold_no_group_twice() {
    let mut config = scenario_config();
    config.add_project_type("twice".to_string(), Some(strings(&["a", "b", "a", "c", "b"])), None, None);
    assert_eq!(project_alias_groups(Some("twice"), Some("c"), &config).unwrap(), strings(&["a", "b", "c"]));
    assert_eq!(project_alias_groups(Some("app"), Some("work"), &config).unwrap(), strings(&["work"]));
}

#[test]
fn project_alias_groups_of_a_type_without_defaults() {
    let mut config = scenario_config();
    config.add_project_type("bare".to_string(), None, None, None);
    assert_eq!(project_alias_groups(Some("bare"), Some("extra"), &config).unwrap(), strings(&["extra"]));
    assert_eq!(project_alias_groups(Some("bare"), None, &config).unwrap(), strings(&[]));
}

#[test]
fn project_alias_groups_of_an_unknown_type_are_not_found() {
    let config = scenario_config();
    let error = project_alias_groups(Some("game"), Some("extra"), &config).unwrap_err();
    assert_eq!(error.kind(), ErrorKind::NotFound);
    assert_eq!(error.to_string(), "Could not find project type");
}

#[test]
fn project_links_go_into_the_directory_of_each_group() {
    let config = scenario_config();
    let (links, failure) = project_links(&strings(&["extra", "work"]), "foo", &config);
    assert_eq!(pairs(&links), vec![pair("extra", "/links/extra/foo"), pair("work", "/links/work/foo")]);
    assert!(failure.is_none());
}

#[test]
fn project_links_end_at_a_group_without_alias() {
    let config = scenario_config();
    let (links, failure) = project_links(&strings(&["gone", "work"]), "foo", &config);
    assert!(links.is_empty());
    assert_eq!(failure.unwrap().to_string(), "Could not find alias");
}

#[test]
fn project_links_without_alias_groups_fail_at_once() {
    let config = Config::new(None, None, None, None);
    let (links, failure) = project_links(&strings(&["work"]), "foo", &config);
    assert!(links.is_empty());
    assert_eq!(failure.unwrap().kind(), ErrorKind::NotFound);
    let (links, failure) = project_links(&strings(&[]), "foo", &config);
    assert!(links.is_empty());
    assert!(failure.is_none());
}

#[test]
fn define_project_type_enters_the_type() {
    let mut config = empty_config();
    define_project_type("app", Some(strings(&["work"])), Some("make"), None, &mut config);
    let found = config.get_project_type("app".to_string()).unwrap();
    assert_eq!(found.default_alias_groups, Some(strings(&["work"])));
    assert_eq!(found.builder, Some("make".to_string()));
    assert_eq!(found.opener, None);
}

#[test]
fn create_alias_group_enters_the_group() {
    let mut config = empty_config();
    create_alias_group("work", "/links/work", &mut config);
    assert_eq!(config.get_alias_group("work").unwrap().path, "/links/work");
    assert_eq!(config.alias_groups().unwrap().len(), 1);
}

#[test]
fn create_alias_group_twice_overwrites() {
    let mut config = empty_config();
    create_alias_group("work", "/links/work", &mut config);
    create_alias_group("work", "/links/other", &mut config);
    assert_eq!(config.alias_groups().unwrap().len(), 1);
    assert_eq!(config.get_alias_group("work").unwrap().path, "/links/other");
    create_alias_group("work", "/links/other", &mut config);
    assert_eq!(config.alias_groups().unwrap().len(), 1);
    assert_eq!(config.get_alias_group("work").unwrap().path, "/links/other");
}

#[test]
fn create_alias_group_changes_no_plan_that_was_made() {
    let mut config = scenario_config();
    let before = create_project("foo", Some("app"), None, None, &config).unwrap();
    create_alias_group("work", "/links/moved", &mut config);
    let after = create_project("foo", Some("app"), None, None, &config).unwrap();
    assert_eq!(pairs(&before.links), vec![pair("work", "/links/work/foo")]);
    assert_eq!(pairs(&after.links), vec![pair("work", "/links/moved/foo")]);
}

#[test]
fn create_lib_enters_the_library() {
    let mut config = empty_config();
    create_lib("work", "/w", false, &mut config);
    assert_eq!(config.get_lib_path(Some("work")).unwrap(), "/w");
    assert_eq!(config.default_lib(), None);
    assert_eq!(config.get_lib_path(None).unwrap(), "/data/project_manager/projects");
}

#[test]
fn create_lib_as_default_sets_the_default_lib() {
    let mut config = empty_config();
    create_lib("work", "/w", true, &mut config);
    assert_eq!(config.default_lib(), Some("work"));
    assert_eq!(config.get_lib_path(None).unwrap(), "/w");
}

#[test]
fn create_project_again_plans_the_same() {
    let config = scenario_config();
    let first = create_project("foo", Some("app"), Some("extra"), None, &config).unwrap();
    let second = create_project("foo", Some("app"), Some("extra"), None, &config).unwrap();
    assert_eq!(first.config_dir, second.config_dir);
    assert_eq!(first.config_path, second.config_path);
    assert_eq!(pairs(&first.links), pairs(&second.links));
    assert!(second.failure.is_none());
}

#[test]
fn create_project_takes_an_absolute_name_as_it_is() {
    let config = scenario_config();
    let plan = create_project("/elsewhere/foo", None, Some("extra"), None, &config).unwrap();
    assert_eq!(plan.project_dir, "/elsewhere/foo");
    assert_eq!(plan.config_path, "/elsewhere/foo/.pm/project.toml");
    assert_eq!(pairs(&plan.links), vec![pair("extra", "/elsewhere/foo")]);
}

#[test]
fn project_type_may_name_a_group_that_is_not_there() {
    let mut config = empty_config();
    define_project_type("app", Some(strings(&["gone"])), None, None, &mut config);
    assert_eq!(
        config.get_project_type("app".to_string()).unwrap().default_alias_groups,
        Some(strings(&["gone"]))
    );
    let plan = create_project("foo", Some("app"), None, None, &config).unwrap();
    assert!(plan.links.is_empty());
    assert_eq!(plan.failure.unwrap().to_string(), "Could not find alias");
}
