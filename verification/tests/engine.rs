use mcf::cf::{cf_command, check_if_cf_is_installed, check_if_installed, login,
    CFSubCommandsThatRequireSequentialMode};
use mcf::detect::{aggregate_outcomes, child_outcome, line_signals_interactive_mode,
    scan_stderr_lines, should_retry_sequentially, BatchOutcome, ChildOutcome};
use mcf::environment::Environment;
use mcf::exec::{exec, format_output_line, ExecMode};
use mcf::options::Options;
use mcf::settings::Settings;

fn one_env_settings() -> Settings {
    Settings {
        environments: vec![Environment {
            name: "p01".to_string(),
            url: "url".to_string(),
            sso: false,
            skip_ssl_validation: false,
        }],
    }
}

fn echo_options() -> Options {
    Options {
        cf_binary_name: "echo".to_string(),
        mcf_home: "/tmp/mcf-test-home".to_string(),
    }
}

#[test]
fn test_exec_could_not_find_env_in_list() {
    let result = exec(
        &one_env_settings(),
        &echo_options(),
        "p01,p02",
        &vec![String::from("")],
        &String::from(""),
        &String::from(""),
        &false,
    );
    assert!(result.is_err());
    assert_eq!(
        result.unwrap_err().message(),
        "could not find \"p02\" in environment list [\n    Environment {\n        name: \"p01\",\n        url: \"url\",\n        sso: false,\n        skip_ssl_validation: false,\n    },\n]"
    );
}

#[test]
fn test_exec_environment_should_have_length() {
    let result = exec(
        &one_env_settings(),
        &echo_options(),
        "p01",
        &vec![String::from("hello")],
        &String::from("/tmp/x/.cf"),
        &String::from("/tmp/x/mcf"),
        &false,
    );
    let plan = result.unwrap();
    assert_eq!(plan.max_name_length, 3);
    assert_eq!(plan.targets.len(), 1);
}

#[test]
fn exec_runs_sequentially_when_the_flag_says_so() {
    let plan = exec(
        &one_env_settings(),
        &echo_options(),
        "p01",
        &vec![String::from("hello")],
        &String::from("/tmp/x/.cf"),
        &String::from("/tmp/x/mcf"),
        &true,
    )
    .unwrap();
    assert_eq!(plan.mode, ExecMode::Sequential);
    assert_eq!(
        plan.targets[0].banner,
        "------------------ NOW ENVIRONMENT p01 ------------------"
    );
    assert!(!plan.targets[0].command.piped);
}

#[test]
fn exec_runs_sequentially_when_the_command_is_terminal_bound() {
    let plan = exec(
        &one_env_settings(),
        &echo_options(),
        "p01",
        &vec![String::from("Delete")],
        &String::from("/tmp/x/.cf"),
        &String::from("/tmp/x/mcf"),
        &false,
    )
    .unwrap();
    assert_eq!(plan.mode, ExecMode::Sequential);
}

#[test]
fn exec_runs_concurrently_otherwise() {
    let plan = exec(
        &one_env_settings(),
        &echo_options(),
        "p01",
        &vec![String::from("Hello")],
        &String::from("/tmp/x/.cf"),
        &String::from("/tmp/x/mcf"),
        &false,
    )
    .unwrap();
    assert_eq!(plan.mode, ExecMode::Concurrent);
    assert!(plan.targets[0].command.piped);
    let labelled = format_output_line(&plan.targets[0].prefix, &"Hello".to_string());
    assert_eq!(labelled, "p01 | Hello");
}

#[test]
fn exec_labels_a_single_short_command_line_exactly() {
    let plan = exec(
        &one_env_settings(),
        &echo_options(),
        "p01",
        &vec![String::from("hello")],
        &String::from("/tmp/x/.cf"),
        &String::from("/tmp/x/mcf"),
        &false,
    )
    .unwrap();
    let labelled = format_output_line(&plan.targets[0].prefix, &"hello".to_string());
    assert_eq!(labelled, "p01 | hello");
}

#[test]
fn exec_spawns_one_child_per_entry_duplicates_included() {
    let settings = Settings {
        environments: vec![
            Environment {
                name: "a".to_string(),
                url: "url_a".to_string(),
                sso: false,
                skip_ssl_validation: false,
            },
            Environment {
                name: "bbb".to_string(),
                url: "url_b".to_string(),
                sso: false,
                skip_ssl_validation: false,
            },
        ],
    };
    let plan = exec(
        &settings,
        &echo_options(),
        "a,bbb,a",
        &vec![String::from("apps")],
        &String::from("/tmp/x/.cf"),
        &String::from("/tmp/x/mcf"),
        &false,
    )
    .unwrap();
    assert_eq!(plan.targets.len(), 3);
    assert_eq!(plan.targets[0].name, "a");
    assert_eq!(plan.targets[1].name, "bbb");
    assert_eq!(plan.targets[2].name, "a");
    assert_eq!(plan.targets[0].command.cf_home, "/tmp/x/mcf/homes/a");
    assert_eq!(plan.targets[1].command.cf_home, "/tmp/x/mcf/homes/bbb");
    assert_eq!(plan.targets[0].command.args, vec!["apps".to_string()]);
}

#[test]
fn exec_pads_every_label_to_the_longest_name_plus_one() {
    let settings = Settings {
        environments: vec![
            Environment {
                name: "a".to_string(),
                url: "url_a".to_string(),
                sso: false,
                skip_ssl_validation: false,
            },
            Environment {
                name: "bbb".to_string(),
                url: "url_b".to_string(),
                sso: false,
                skip_ssl_validation: false,
            },
        ],
    };
    let plan = exec(
        &settings,
        &echo_options(),
        "a,bbb",
        &vec![String::from("apps")],
        &String::from("/tmp/x/.cf"),
        &String::from("/tmp/x/mcf"),
        &false,
    )
    .unwrap();
    assert_eq!(plan.max_name_length, 3);
    for target in &plan.targets {
        assert_eq!(target.prefix.len(), plan.max_name_length + 1);
        assert!(target.prefix.starts_with(target.name.as_str()));
        let padding = &target.prefix[target.name.len()..];
        assert!(padding.chars().all(|c| c == ' '));
        assert_eq!(target.name.len() + padding.len(), plan.max_name_length + 1);
    }
    assert_eq!(plan.targets[0].prefix, "a   ");
    assert_eq!(plan.targets[1].prefix, "bbb ");
}

#[test]
fn exec_picks_sequential_mode_whenever_ssh_appears() {
    for command in [
        vec![String::from("ssh"), String::from("my-app")],
        vec![String::from("SSH"), String::from("my-app")],
        vec![String::from("enable-ssh")],
        vec![String::from("do"), String::from("xSshY")],
    ] {
        let plan = exec(
            &one_env_settings(),
            &echo_options(),
            "p01",
            &command,
            &String::from("/tmp/x/.cf"),
            &String::from("/tmp/x/mcf"),
            &false,
        )
        .unwrap();
        assert_eq!(plan.mode, ExecMode::Sequential);
    }
}

#[test]
fn check_if_contains_matches_the_terminal_bound_tokens() {
    assert!(CFSubCommandsThatRequireSequentialMode::check_if_contains("ssh".to_string()));
    assert!(CFSubCommandsThatRequireSequentialMode::check_if_contains("Delete my-app".to_string()));
    assert!(CFSubCommandsThatRequireSequentialMode::check_if_contains("xDELETEy".to_string()));
    assert!(!CFSubCommandsThatRequireSequentialMode::check_if_contains("apps".to_string()));
    assert!(!CFSubCommandsThatRequireSequentialMode::check_if_contains("".to_string()));
}

#[test]
fn empty_entries_are_looked_up_like_any_name() {
    let result = exec(
        &one_env_settings(),
        &echo_options(),
        "p01,",
        &vec![String::from("apps")],
        &String::from("/tmp/x/.cf"),
        &String::from("/tmp/x/mcf"),
        &false,
    );
    let message = result.unwrap_err().message();
    assert!(message.starts_with("could not find \"\" in environment list"));
}

#[test]
fn test_cf_command() {
    let result = cf_command(
        &String::from("echo"),
        &String::from("envname"),
        &String::from("/tmp/mcf-lib-test"),
    );
    assert_eq!(result.program, "echo");
    assert_eq!(result.cf_home, "/tmp/mcf-lib-test/homes/envname");
    assert!(result.args.is_empty());
    assert!(!result.piped);
}

#[test]
fn test_login_could_not_find_environment_in_list() {
    let result = login(
        &one_env_settings(),
        &echo_options(),
        &String::from("p02"),
        &String::from(""),
        &None,
        &None,
        &None,
    );
    assert!(result.is_err());
    assert_eq!(result.unwrap_err().message(), "could not find \"p02\" in environment list [\n    Environment {\n        name: \"p01\",\n        url: \"url\",\n        sso: false,\n        skip_ssl_validation: false,\n    },\n]");
}

#[test]
fn test_login_happy_case() {
    let result = login(
        &one_env_settings(),
        &echo_options(),
        &String::from("p01"),
        &String::from(""),
        &None,
        &None,
        &None,
    );
    assert!(result.is_ok());
    let command = result.unwrap();
    assert_eq!(command.program, "echo");
    assert_eq!(command.args, vec!["login".to_string(), "-a".to_string(), "url".to_string()]);
    assert!(!command.piped);
}

#[test]
fn login_applies_every_flag_in_order() {
    let settings = Settings {
        environments: vec![Environment {
            name: "p01".to_string(),
            url: "url".to_string(),
            sso: true,
            skip_ssl_validation: true,
        }],
    };
    let with_passcode = login(
        &settings,
        &echo_options(),
        &String::from("p01"),
        &String::from("/tmp/home"),
        &Some("secret".to_string()),
        &Some("org-one".to_string()),
        &Some("space-one".to_string()),
    )
    .unwrap();
    assert_eq!(
        with_passcode.args,
        vec![
            "login".to_string(),
            "-a".to_string(),
            "url".to_string(),
            "--skip-ssl-validation".to_string(),
            "--sso-passcode".to_string(),
            "secret".to_string(),
            "-o".to_string(),
            "org-one".to_string(),
            "-s".to_string(),
            "space-one".to_string(),
        ]
    );
    let with_sso = login(
        &settings,
        &echo_options(),
        &String::from("p01"),
        &String::from("/tmp/home"),
        &None,
        &None,
        &None,
    )
    .unwrap();
    assert_eq!(
        with_sso.args,
        vec![
            "login".to_string(),
            "-a".to_string(),
            "url".to_string(),
            "--skip-ssl-validation".to_string(),
            "--sso".to_string(),
        ]
    );
}

#[test]
fn test_check_if_installed() {
    let expected = vec![
        String::from("cf version"),
        String::from("Cloud Foundry command line tool"),
    ];
    let output_one = check_if_installed(&String::from("hello\n"), &expected);
    let output_two = check_if_installed(
        &String::from("cf version 8.6.1+b5a352a.2023-02-27, Cloud Foundry command line tool\n"),
        &expected,
    );
    assert_eq!(output_one, false);
    assert_eq!(output_two, true);
}

#[test]
fn check_if_cf_is_installed_needs_both_texts() {
    assert!(check_if_cf_is_installed(&String::from(
        "cf version 8.6.1, Cloud Foundry command line tool"
    )));
    assert!(!check_if_cf_is_installed(&String::from("cf version 8.6.1")));
    assert!(!check_if_cf_is_installed(&String::from("hello")));
}

#[test]
fn the_signature_line_turns_the_batch_into_a_retry() {
    let stderr_lines = vec![
        "connecting".to_string(),
        "Error: inappropriate ioctl for device".to_string(),
        "bye".to_string(),
    ];
    assert!(!line_signals_interactive_mode(&stderr_lines[0]));
    assert!(line_signals_interactive_mode(&stderr_lines[1]));
    assert_eq!(scan_stderr_lines(&stderr_lines), Some(1));

    let signalled = child_outcome(true, true);
    assert_eq!(signalled, ChildOutcome::InteractiveModeRequired);
    let outcomes = vec![ChildOutcome::Success, signalled];
    let batch = aggregate_outcomes(&outcomes);
    assert_eq!(batch, BatchOutcome::InteractiveModeRequired);
    assert!(should_retry_sequentially(&batch, false));

    let forced_sequential = exec(
        &one_env_settings(),
        &echo_options(),
        "p01",
        &vec![String::from("hello")],
        &String::from("/tmp/x/.cf"),
        &String::from("/tmp/x/mcf"),
        &true,
    )
    .unwrap();
    assert_eq!(forced_sequential.mode, ExecMode::Sequential);
    let retry_outcomes = vec![ChildOutcome::Success];
    let retry_batch = aggregate_outcomes(&retry_outcomes);
    assert_eq!(retry_batch, BatchOutcome::Success);
    assert!(!should_retry_sequentially(&retry_batch, true));
}

#[test]
fn the_unknown_name_report_renders_every_field() {
    let settings = Settings {
        environments: vec![Environment {
            name: "p01".to_string(),
            url: "url".to_string(),
            sso: true,
            skip_ssl_validation: true,
        }],
    };
    let message = exec(
        &settings,
        &echo_options(),
        "p02",
        &vec![String::from("apps")],
        &String::from(""),
        &String::from(""),
        &false,
    )
    .unwrap_err()
    .message();
    assert_eq!(
        message,
        "could not find \"p02\" in environment list [\n    Environment {\n        name: \"p01\",\n        url: \"url\",\n        sso: true,\n        skip_ssl_validation: true,\n    },\n]"
    );

    let empty = Settings { environments: vec![] };
    let empty_message = exec(
        &empty,
        &echo_options(),
        "p02",
        &vec![String::from("apps")],
        &String::from(""),
        &String::from(""),
        &false,
    )
    .unwrap_err()
    .message();
    assert_eq!(empty_message, "could not find \"p02\" in environment list []");
}

#[test]
fn a_clean_stderr_stream_signals_nothing() {
    let stderr_lines = vec!["all good".to_string()];
    assert_eq!(scan_stderr_lines(&stderr_lines), None);
    assert_eq!(child_outcome(true, false), ChildOutcome::Success);
    assert_eq!(child_outcome(false, false), ChildOutcome::Failure);
    let outcomes = vec![ChildOutcome::Success, ChildOutcome::Failure];
    assert_eq!(aggregate_outcomes(&outcomes), BatchOutcome::ChildFailed);
    assert_eq!(aggregate_outcomes(&vec![ChildOutcome::Success]), BatchOutcome::Success);
    assert!(!should_retry_sequentially(&BatchOutcome::ChildFailed, false));
}
