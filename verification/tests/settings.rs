use currency_converter_cli::utils::config::{
    check_config, check_env_file_has_vars, check_type, env_vars, health_check, write_env_var,
    ConfigPlan, ENV_PATH,
};

fn full_file() -> String {
    "API_KEY=abc\nCURRENCY_CACHE_TIME_IN_HOURS=24\nCURRENCY_RATE_CACHE_TIME_IN_HOURS=1\nCOMMAND_HISTORY_CACHE_TIME_IN_HOURS=1\n"
        .to_string()
}

#[test]
fn test_env_vars_table() {
    let vars = env_vars();
    assert_eq!(ENV_PATH, ".env");
    assert_eq!(vars.len(), 4);
    assert_eq!(vars[0].key, "API_KEY");
    assert_eq!(vars[0].value_type, "String");
    assert_eq!(vars[0].description, "Get your API key from https://app.exchangerate-api.com/");
    assert_eq!(vars[1].key, "CURRENCY_CACHE_TIME_IN_HOURS");
    assert_eq!(vars[2].key, "CURRENCY_RATE_CACHE_TIME_IN_HOURS");
    assert_eq!(vars[3].key, "COMMAND_HISTORY_CACHE_TIME_IN_HOURS");
    assert_eq!(vars[3].value_type, "u32");
    assert_eq!(
        vars[3].description,
        "Cache time to live in hours for command history, if you don't want to cache rates set it to 0"
    );
}

#[test]
fn test_health_check() {
    assert!(health_check(&Some(full_file())));
    assert!(!health_check(&None));
    assert!(!health_check(&Some("API_KEY=abc\n".to_string())));
    assert!(!health_check(&Some(String::new())));
    assert!(check_env_file_has_vars(&full_file()));
    assert!(!check_env_file_has_vars("CURRENCY_CACHE_TIME_IN_HOURS=1"));
}

#[test]
fn test_check_config() {
    assert_eq!(check_config(false, &None), Ok(ConfigPlan::CreateFile));
    assert_eq!(check_config(false, &Some(full_file())), Ok(ConfigPlan::CreateFile));
    assert_eq!(check_config(true, &None), Err("Failed to read .env file".to_string()));
    assert_eq!(check_config(true, &Some(full_file())), Ok(ConfigPlan::Keep));
    assert_eq!(
        check_config(true, &Some("API_KEY=abc".to_string())),
        Ok(ConfigPlan::AddVariables)
    );
}

#[test]
fn test_check_type() {
    assert_eq!(check_type(&"anything".to_string(), "String"), Ok(()));
    assert_eq!(check_type(&"12".to_string(), "u32"), Ok(()));
    assert_eq!(check_type(&"0".to_string(), "u32"), Ok(()));
    assert_eq!(check_type(&"-1".to_string(), "u32"), Err("must be a number".to_string()));
    assert_eq!(check_type(&"abc".to_string(), "u32"), Err("must be a number".to_string()));
    assert_eq!(
        check_type(&"4294967296".to_string(), "u32"),
        Err("must be a number".to_string())
    );
    assert_eq!(check_type(&"1".to_string(), "i64"), Err("Is not a valid type".to_string()));
}

#[test]
fn test_write_env_var() {
    assert_eq!(
        write_env_var("API_KEY", "String", "  abc \n"),
        Ok("API_KEY=abc".to_string())
    );
    assert_eq!(
        write_env_var("CURRENCY_CACHE_TIME_IN_HOURS", "u32", "24\n"),
        Ok("CURRENCY_CACHE_TIME_IN_HOURS=24".to_string())
    );
    assert_eq!(
        write_env_var("API_KEY", "String", "   \n"),
        Err("API_KEY cannot be empty".to_string())
    );
    assert_eq!(
        write_env_var("CURRENCY_CACHE_TIME_IN_HOURS", "u32", "soon\n"),
        Err("CURRENCY_CACHE_TIME_IN_HOURS: must be a number".to_string())
    );
    assert_eq!(
        write_env_var("X", "bool", "true"),
        Err("X: Is not a valid type".to_string())
    );
}
