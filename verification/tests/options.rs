use encode_bridge::options::{parse_options, Options, OptionsError};

fn args(list: &[&str]) -> Vec<String> {
    list.iter().map(|s| s.to_string()).collect()
}

#[test]
fn no_arguments() {
    assert_eq!(parse_options(&args(&[])), Ok(Options { config_arg: None, cli: false }));
}

#[test]
fn config_path_and_cli() {
    assert_eq!(parse_options(&args(&["my.toml", "--cli"])), Ok(Options { config_arg: Some(0), cli: true }));
    assert_eq!(parse_options(&args(&["--cli", "--cli", "c.toml"])), Ok(Options { config_arg: Some(2), cli: true }));
}

#[test]
fn unknown_option() {
    assert_eq!(parse_options(&args(&["a.toml", "-v"])), Err(OptionsError::UnknownOption(1)));
    assert_eq!(parse_options(&args(&["--help", "a", "b"])), Err(OptionsError::UnknownOption(0)));
}

#[test]
fn second_config_path() {
    assert_eq!(parse_options(&args(&["a.toml", "b.toml", "-x"])), Err(OptionsError::SecondConfigPath));
}
