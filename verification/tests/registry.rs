use mcf::environment::{add, get_fields, list, match_environment, remove, Environment,
    EnvironmentCommands, MatchOutcome};
use mcf::options::Options;
use mcf::settings::{path_to_settings_file, Settings};

fn env(name: &str, url: &str, sso: bool, skip_ssl_validation: bool) -> Environment {
    Environment {
        name: name.to_string(),
        url: url.to_string(),
        sso,
        skip_ssl_validation,
    }
}

#[test]
fn test_list() {
    let env_one = env("one", "url_one", false, false);
    let env_two = env("two", "url_two", true, true);
    let settings = Settings {
        environments: vec![env_one.clone(), env_two.clone()],
    };
    assert_eq!(list(&settings), vec![env_one, env_two]);
}

#[test]
fn test_add() {
    let env_one = env("one", "url_one", false, false);
    let env_two = env("two", "url_two", true, true);
    let settings = Settings {
        environments: vec![env_one.clone()],
    };
    let result = add(
        &settings,
        &env_two.name,
        &env_two.url,
        &env_two.sso,
        &env_two.skip_ssl_validation,
    );
    assert_eq!(result.environments, vec![env_one, env_two]);
}

#[test]
fn add_replaces_an_environment_of_the_same_name() {
    let settings = Settings {
        environments: vec![env("one", "url_one", false, false), env("two", "url_two", true, true)],
    };
    let result = add(
        &settings,
        &"one".to_string(),
        &"url_new".to_string(),
        &true,
        &false,
    );
    assert_eq!(
        result.environments,
        vec![env("two", "url_two", true, true), env("one", "url_new", true, false)]
    );
}

#[test]
fn test_remove() {
    let env_one = env("one", "url_one", false, false);
    let env_two = env("two", "url_two", true, true);
    let settings = Settings {
        environments: vec![env_one, env_two.clone()],
    };
    let result = remove(&settings, &"one".to_string());
    assert_eq!(result.environments, vec![env_two]);
}

#[test]
fn match_environment_dispatches_each_command() {
    let env_one = env("one", "url_one", false, false);
    let settings = Settings {
        environments: vec![env_one.clone()],
    };
    match match_environment(
        &settings,
        &EnvironmentCommands::Add {
            name: "two".to_string(),
            url: "url_two".to_string(),
            sso: true,
            skip_ssl_validation: true,
        },
    ) {
        MatchOutcome::Save(new_settings) => assert_eq!(
            new_settings.environments,
            vec![env_one.clone(), env("two", "url_two", true, true)]
        ),
        MatchOutcome::Listing(_) => panic!("add must ask for a save"),
    }
    match match_environment(&settings, &EnvironmentCommands::Remove { name: "one".to_string() }) {
        MatchOutcome::Save(new_settings) => assert_eq!(new_settings.environments, vec![]),
        MatchOutcome::Listing(_) => panic!("remove must ask for a save"),
    }
    match match_environment(&settings, &EnvironmentCommands::List) {
        MatchOutcome::Listing(environments) => assert_eq!(environments, vec![env_one]),
        MatchOutcome::Save(_) => panic!("list must not ask for a save"),
    }
}

#[test]
fn get_environment_by_name_finds_the_first_match() {
    let settings = Settings {
        environments: vec![env("one", "url_one", false, false), env("one", "url_two", true, true)],
    };
    let found = settings.get_environment_by_name(&"one".to_string());
    assert_eq!(found, Some(env("one", "url_one", false, false)));
    assert_eq!(settings.get_environment_by_name(&"three".to_string()), None);
}

#[test]
fn environment_fields_and_values_line_up() {
    assert_eq!(
        get_fields(),
        vec![
            "name".to_string(),
            "url".to_string(),
            "sso".to_string(),
            "skip_ssl_validation".to_string()
        ]
    );
    let e = env("one", "url_one", false, true);
    assert_eq!(
        e.get_values(),
        vec!["one".to_string(), "url_one".to_string(), "false".to_string(), "true".to_string()]
    );
}

#[test]
fn test_path_to_settings_file() {
    let opts = Options::new(None, Some("/test/mcf/".to_string()));
    let path = opts.get_mcf_home_path_buf();
    let actual_path = path_to_settings_file(path);
    let expected_path = "/test/mcf/settings.yml".to_string();
    assert_eq!(actual_path, expected_path);
}

#[test]
fn path_to_settings_file_inserts_a_separator() {
    assert_eq!(
        path_to_settings_file("/test/mcf".to_string()),
        "/test/mcf/settings.yml".to_string()
    );
}

#[test]
fn test_get_mcf_home_path_buf() {
    let option = Options::default();
    assert_eq!(
        option.get_mcf_home_path_buf(),
        dirs::home_dir()
            .unwrap()
            .join(".mcf")
            .to_str()
            .unwrap()
            .to_string()
    );
}

#[test]
fn options_overrides_take_effect() {
    let options = Options::new(Some("cf8".to_string()), Some("/somewhere".to_string()));
    assert_eq!(options.cf_binary_name, "cf8".to_string());
    assert_eq!(options.mcf_home, "/somewhere".to_string());
    let defaulted = Options::new(None, Some("/somewhere".to_string()));
    assert_eq!(defaulted.cf_binary_name, "cf".to_string());
}

#[test]
fn default_settings_hold_no_environments() {
    let settings = Settings::default();
    assert_eq!(settings.environments.len(), 0);
}
