use texcreate::auto_complete::{auto_complete, get_name, prompt_shell, shell_of, Shell};
use texcreate::cli::{config_file_name, feedback_link, Cli};
use texcreate::error::Error;
use texcreate::texc_gen::{Commands, Launch};

#[test]
fn arguments_of_commands_without_flags() {
    assert_eq!(Commands::Init.arguments(), vec!["run", "--", "init"]);
    assert_eq!(Commands::Refresh.arguments(), vec!["run", "--", "refresh"]);
}

#[test]
fn arguments_of_gen_default_to_level_one() {
    assert_eq!(Commands::Gen { level: None }.arguments(), vec!["run", "--", "gen", "-l", "1"]);
    assert_eq!(
        Commands::GenAll { level: None }.arguments(),
        vec!["run", "--", "gen-all", "-l", "1"]
    );
}

#[test]
fn arguments_of_gen_carry_the_level() {
    assert_eq!(Commands::Gen { level: Some(3) }.arguments(), vec!["run", "--", "gen", "-l", "3"]);
    assert_eq!(
        Commands::GenAll { level: Some(255) }.arguments(),
        vec!["run", "--", "gen-all", "-l", "255"]
    );
    assert_eq!(Commands::Gen { level: Some(0) }.arguments(), vec!["run", "--", "gen", "-l", "0"]);
}

#[test]
fn arguments_of_save_carry_the_name() {
    assert_eq!(
        Commands::Save { name: "mine".to_string() }.arguments(),
        vec!["run", "--", "save", "-n", "mine"]
    );
}

#[test]
fn words_of_commands() {
    assert_eq!(Commands::Init.to_string(), "init");
    assert_eq!(Commands::Refresh.to_string(), "refresh");
    assert_eq!(Commands::Gen { level: None }.to_string(), "gen");
    assert_eq!(Commands::GenAll { level: Some(2) }.to_string(), "gen-all");
    assert_eq!(Commands::Save { name: String::new() }.to_string(), "save");
}

#[test]
fn run_command_clones_for_new() {
    match Commands::New.run_command() {
        Launch::Clone { link, into } => {
            assert_eq!(link, "https://github.com/MKProj/texcgen.git");
            assert_eq!(into, "texcgen");
        }
        other => panic!("unexpected: {:?}", other),
    }
}

#[test]
fn run_command_runs_cargo_otherwise() {
    match (Commands::Gen { level: Some(2) }).run_command() {
        Launch::Cargo(arguments) => assert_eq!(arguments, vec!["run", "--", "gen", "-l", "2"]),
        other => panic!("unexpected: {:?}", other),
    }
}

#[test]
fn prompt_shell_reads_names_in_any_case() {
    assert_eq!(prompt_shell("bash".to_string()).unwrap(), Shell::Bash);
    assert_eq!(prompt_shell("  BASH \n".to_string()).unwrap(), Shell::Bash);
    assert_eq!(prompt_shell("Elvish".to_string()).unwrap(), Shell::Elvish);
    assert_eq!(prompt_shell("fish\n".to_string()).unwrap(), Shell::Fish);
    assert_eq!(prompt_shell("PowerShell".to_string()).unwrap(), Shell::PowerShell);
    assert_eq!(prompt_shell("\tzsh".to_string()).unwrap(), Shell::Zsh);
}

#[test]
fn prompt_shell_refuses_other_input() {
    for input in ["", "sh", "bash zsh", "ps1", "power shell"] {
        match prompt_shell(input.to_string()) {
            Err(Error::InvalidInput(given)) => assert_eq!(given, input),
            other => panic!("unexpected: {:?}", other),
        }
    }
}

#[test]
fn get_name_has_the_shells_extension() {
    assert_eq!(get_name(&Shell::Bash), "texcreate-complete.bash");
    assert_eq!(get_name(&Shell::Fish), "texcreate-complete.fish");
    assert_eq!(get_name(&Shell::Zsh), "texcreate-complete.zsh");
    assert_eq!(get_name(&Shell::PowerShell), "texcreate-complete.ps1");
    assert_eq!(get_name(&Shell::Elvish), "texcreate-complete.elv");
}

#[test]
fn cli_alerts_unless_told_to_ignore() {
    assert!(Cli::New { ignore: None }.alerts());
    assert!(Cli::New { ignore: Some(false) }.alerts());
    assert!(!Cli::New { ignore: Some(true) }.alerts());
    assert!(Cli::Build { file: None, ignore: None }.alerts());
    assert!(!Cli::Zip { file: None, ignore: Some(true) }.alerts());
    assert!(Cli::List { repo: None }.alerts());
    assert!(Cli::List { repo: Some("mkproj".to_string()) }.alerts());
    assert!(!Cli::List { repo: Some("custom".to_string()) }.alerts());
    assert!(!Cli::Update.alerts());
    assert!(!Cli::Init.alerts());
}

#[test]
fn cli_lists_custom_only_when_named() {
    assert!(Cli::List { repo: Some("custom".to_string()) }.lists_custom());
    assert!(!Cli::List { repo: Some("Custom".to_string()) }.lists_custom());
    assert!(!Cli::List { repo: None }.lists_custom());
    assert!(!Cli::Open.lists_custom());
}

#[test]
fn cli_config_file_defaults() {
    assert_eq!(Cli::Build { file: None, ignore: None }.config_file().unwrap(), "texcreate.toml");
    assert_eq!(
        Cli::Zip { file: Some("my.toml".to_string()), ignore: None }.config_file().unwrap(),
        "my.toml"
    );
    assert_eq!(Cli::Update.config_file(), None);
}

#[test]
fn config_file_name_defaults_when_empty() {
    assert_eq!(config_file_name("\n"), "texcreate.toml");
    assert_eq!(config_file_name(""), "texcreate.toml");
    assert_eq!(config_file_name("  demo.toml \n"), "demo.toml");
}

#[test]
fn feedback_link_carries_the_subject() {
    assert_eq!(feedback_link("hello"), "mailto:texcreate_feedback@mkproj.com?subject=hello");
}

#[test]
fn auto_complete_names_shell_and_file() {
    let (shell, name) = auto_complete(" Fish\n".to_string()).unwrap();
    assert_eq!(shell, Shell::Fish);
    assert_eq!(name, "texcreate-complete.fish");
    assert!(matches!(auto_complete("csh".to_string()), Err(Error::InvalidInput(given)) if given == "csh"));
}

#[test]
fn shell_of_takes_the_name_in_small_letters() {
    assert_eq!(shell_of("bash"), Some(Shell::Bash));
    assert_eq!(shell_of("elvish"), Some(Shell::Elvish));
    assert_eq!(shell_of("fish"), Some(Shell::Fish));
    assert_eq!(shell_of("powershell"), Some(Shell::PowerShell));
    assert_eq!(shell_of("zsh"), Some(Shell::Zsh));
    assert_eq!(shell_of("Bash"), None);
    assert_eq!(shell_of(" bash"), None);
    assert_eq!(shell_of(""), None);
}
