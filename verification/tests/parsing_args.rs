use currency_converter_cli::cli::{parse_cli_arguments, Action};

#[test]
fn test_direct_conversion_parse_args() {
    let direct_conversion_args = vec![
        "currency_converter_cli".to_string(),
        "USD".to_string(),
        "EUR".to_string(),
        "100".to_string(),
    ];

    let action = parse_cli_arguments(direct_conversion_args);

    assert_eq!(
        action,
        Action::DirectConversion {
            source: "USD".to_string(),
            target: "EUR".to_string(),
            amount: "100".to_string()
        }
    );
}

#[test]
fn test_history_parse_args() {
    let history_args = vec!["currency_converter_cli".to_string(), "history".to_string()];

    let action = parse_cli_arguments(history_args);

    assert_eq!(action, Action::History);
}

#[test]
fn test_supported_currencies_parse_args() {
    let supported_currencies_args = vec!["currency_converter_cli".to_string(), "-l".to_string()];

    let action = parse_cli_arguments(supported_currencies_args);

    assert_eq!(action, Action::ListCurrencies);
}

#[test]
fn test_list_supported_currencies_with_rates_parse_args() {
    let supported_currencies_args = vec!["currency_converter_cli".to_string(), "-lr".to_string()];

    let action = parse_cli_arguments(supported_currencies_args);

    assert_eq!(action, Action::ListCurrenciesWithRates);
}

#[test]
fn test_invalid_args() {
    let invalid_args = vec!["currency_converter_cli".to_string()];

    let action = parse_cli_arguments(invalid_args);

    assert_eq!(
        action,
        Action::Error {
            message: "Invalid number of arguments, use -h to see the list of available commands"
                .to_string()
        }
    );
}

#[test]
fn test_help_parse_args() {
    let help_args = vec!["currency_converter_cli".to_string(), "-h".to_string()];

    let action = parse_cli_arguments(help_args);

    assert_eq!(action, Action::Help);
}

#[test]
fn test_setup_parse_args() {
    let setup_args = vec!["currency_converter_cli".to_string(), "setup".to_string()];

    let action = parse_cli_arguments(setup_args);

    assert_eq!(action, Action::Setup);
}

#[test]
fn test_update_cache_parse_args() {
    let update_cache_args = vec!["currency_converter_cli".to_string(), "-u".to_string()];

    let action = parse_cli_arguments(update_cache_args);

    assert_eq!(action, Action::UpdateCache);
}

#[test]
fn test_interactive_mode_parse_args() {
    let interactive_mode_args =
        vec!["currency_converter_cli".to_string(), "interactive".to_string()];

    let action = parse_cli_arguments(interactive_mode_args);

    assert_eq!(action, Action::InteractiveMode);
}

#[test]
fn test_error_parse_args() {
    let error_args = vec!["currency_converter_cli".to_string(), "invalid".to_string()];

    let action = parse_cli_arguments(error_args);

    assert_eq!(
        action,
        Action::Error {
            message: "Invalid argument".to_string()
        }
    );
}

#[test]
fn test_every_short_and_long_form() {
    let cases = vec![
        ("-i", Action::InteractiveMode),
        ("interactive", Action::InteractiveMode),
        ("-u", Action::UpdateCache),
        ("update-cache", Action::UpdateCache),
        ("-h", Action::Help),
        ("help", Action::Help),
        ("-l", Action::ListCurrencies),
        ("list-currencies", Action::ListCurrencies),
        ("-lr", Action::ListCurrenciesWithRates),
        ("list-currencies-with-rates", Action::ListCurrenciesWithRates),
        ("-s", Action::Setup),
        ("setup", Action::Setup),
        ("-H", Action::History),
        ("history", Action::History),
    ];
    for (arg, expected) in cases {
        assert_eq!(Action::new_from_single_argument(arg), expected);
    }
}

#[test]
fn test_wrong_number_of_arguments() {
    let expected = Action::Error {
        message: "Invalid number of arguments, use -h to see the list of available commands"
            .to_string(),
    };
    let three = vec!["p".to_string(), "USD".to_string(), "EUR".to_string()];
    assert_eq!(parse_cli_arguments(three), expected);
    let five = vec![
        "p".to_string(),
        "USD".to_string(),
        "EUR".to_string(),
        "1".to_string(),
        "x".to_string(),
    ];
    assert_eq!(parse_cli_arguments(five), expected);
    assert_eq!(parse_cli_arguments(Vec::new()), expected);
}

#[test]
fn test_action_lists() {
    let all = Action::get_all_actions();
    assert_eq!(all.len(), 8);
    assert_eq!(
        all[0],
        Action::DirectConversion {
            source: "".to_string(),
            target: "".to_string(),
            amount: "".to_string()
        }
    );
    assert_eq!(all[1], Action::InteractiveMode);
    assert_eq!(all[7], Action::History);
    let interactive = Action::get_interactive_mode_actions();
    assert_eq!(interactive.len(), 7);
    assert!(!interactive.contains(&Action::InteractiveMode));
    let mut expected = all.clone();
    expected.remove(1);
    assert_eq!(interactive, expected);
}

#[test]
fn test_words_of_each_action() {
    let conversion = Action::DirectConversion {
        source: "USD".to_string(),
        target: "EUR".to_string(),
        amount: "1".to_string(),
    };
    let error = Action::Error { message: "m".to_string() };
    assert_eq!(Action::InteractiveMode.short_flag(), Some("-i".to_string()));
    assert_eq!(Action::ListCurrenciesWithRates.short_flag(), Some("-lr".to_string()));
    assert_eq!(Action::History.short_flag(), Some("-H".to_string()));
    assert_eq!(conversion.short_flag(), None);
    assert_eq!(error.short_flag(), None);
    assert_eq!(conversion.command_name(), Some("direct-conversion".to_string()));
    assert_eq!(error.command_name(), None);
    assert_eq!(Action::Setup.description(), Some("Setup application".to_string()));
    assert_eq!(conversion.description(), Some("Direct conversion".to_string()));
    assert_eq!(error.description(), None);
    assert_eq!(Action::UpdateCache.info(), Some("Updating cache".to_string()));
    assert_eq!(
        Action::ListCurrenciesWithRates.info(),
        Some("Listing supported currencies with rates".to_string())
    );
    assert_eq!(Action::Help.info(), None);
    assert_eq!(conversion.info(), None);
    for action in Action::get_all_actions() {
        if let Some(flag) = action.short_flag() {
            assert_eq!(Action::new_from_single_argument(&flag), action);
            let name = action.command_name().unwrap();
            assert_eq!(Action::new_from_single_argument(&name), action);
        }
    }
    for action in Action::get_interactive_mode_actions() {
        let name = action.command_name().unwrap();
        assert_eq!(Action::from_interactive_mode(&name), action);
    }
}

#[test]
fn test_interactive_commands() {
    assert_eq!(Action::from_interactive_mode("history"), Action::History);
    assert_eq!(Action::from_interactive_mode("help"), Action::Help);
    assert_eq!(
        Action::from_interactive_mode("direct-conversion"),
        Action::DirectConversion {
            source: "".to_string(),
            target: "".to_string(),
            amount: "".to_string()
        }
    );
    let invalid = Action::Error { message: "Invalid command".to_string() };
    assert_eq!(Action::from_interactive_mode("interactive"), invalid);
    assert_eq!(Action::from_interactive_mode("-h"), invalid);
    assert_eq!(Action::from_interactive_mode(""), invalid);
}

#[test]
fn test_validation_currency_and_amount() {
    let args = vec!["currency_converter_cli".to_string(), "-h".to_string()];
    assert_eq!(parse_cli_arguments(args), Action::Help);

    let mut help = String::new();
    for action in Action::get_all_actions() {
        for line in action.help_lines() {
            help.push_str(&line);
            help.push('\n');
        }
    }

    assert!(help.starts_with("Default use - Direct conversion"));
}

#[test]
fn test_help_lines() {
    let conversion = Action::new_direct_conversion(
        "USD".to_string(),
        "EUR".to_string(),
        "1".to_string(),
    );
    assert_eq!(
        conversion.help_lines(),
        vec![
            "Default use - Direct conversion".to_string(),
            "<source currency> <target currency> <amount> // Example: USD EUR 1000".to_string(),
            " ".to_string(),
        ]
    );
    assert_eq!(
        Action::InteractiveMode.help_lines(),
        vec!["-i interactive - Run in interactive mode".to_string()]
    );
    assert_eq!(
        Action::ListCurrenciesWithRates.help_lines(),
        vec!["-lr list-currencies-with-rates - List supported currencies with rates".to_string()]
    );
    assert_eq!(Action::History.help_lines(), vec!["-H history - Display history".to_string()]);
    let error = Action::Error { message: "m".to_string() };
    assert_eq!(error.help_lines(), Vec::<String>::new());
    let mut count = 0;
    for action in Action::get_all_actions() {
        count += action.help_lines().len();
    }
    assert_eq!(count, 10);
}
