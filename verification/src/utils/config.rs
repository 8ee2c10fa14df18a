use vstd::prelude::*;
use vstd::string::StringExecFns;
use crate::text::{
    contains, has_substring, join3, parse_u32, parsed_u32, same_text, trim, trimmed_of,
};

verus! {

/// The file that holds the settings.
pub const ENV_PATH: &'static str = ".env";

/// One setting: its name, the type of its value, and what to tell the user about it.
#[derive(Debug, Clone, PartialEq, Eq)]
pub struct EnvVar {
    pub key: String,
    pub value_type: String,
    pub description: String,
}

/// The names of the settings, in the order in which they are asked for.
pub open spec fn setting_names() -> Seq<Seq<char>> {
    seq![
        "API_KEY"@,
        "CURRENCY_CACHE_TIME_IN_HOURS"@,
        "CURRENCY_RATE_CACHE_TIME_IN_HOURS"@,
        "COMMAND_HISTORY_CACHE_TIME_IN_HOURS"@,
    ]
}

/// The types of the settings' values, in the same order.
pub open spec fn setting_types() -> Seq<Seq<char>> {
    seq!["String"@, "u32"@, "u32"@, "u32"@]
}

/// What the user is told about each setting, in the same order.
pub open spec fn setting_descriptions() -> Seq<Seq<char>> {
    seq![
        "Get your API key from https://app.exchangerate-api.com/"@,
        "Cache time to live in hours for currency list, if you don't want to cache rates set it to 0"@,
        "Cache time to live in hours for currency rates, if you don't want to cache rates set it to 0"@,
        "Cache time to live in hours for command history, if you don't want to cache rates set it to 0"@,
    ]
}

/// Whether the contents of the settings file name every setting.
pub open spec fn names_every_setting(contents: Seq<char>) -> bool {
    forall|i: int|
        0 <= i < setting_names().len() ==> has_substring(contents, #[trigger] setting_names()[i])
}

/// The settings, in the order in which they are asked for.
pub fn env_vars() -> (r: Vec<EnvVar>)
    ensures
        r@.len() == 4,
        forall|i: int|
            0 <= i < 4 ==> (#[trigger] r@[i]).key@ == setting_names()[i] && r@[i].value_type@
                == setting_types()[i] && r@[i].description@ == setting_descriptions()[i],
{
    let mut vars: Vec<EnvVar> = Vec::new();
    vars.push(
        EnvVar {
            key: String::from_str("API_KEY"),
            value_type: String::from_str("String"),
            description: String::from_str(
                "Get your API key from https://app.exchangerate-api.com/",
            ),
        },
    );
    vars.push(
        EnvVar {
            key: String::from_str("CURRENCY_CACHE_TIME_IN_HOURS"),
            value_type: String::from_str("u32"),
            description: String::from_str(
                "Cache time to live in hours for currency list, if you don't want to cache rates set it to 0",
            ),
        },
    );
    vars.push(
        EnvVar {
            key: String::from_str("CURRENCY_RATE_CACHE_TIME_IN_HOURS"),
            value_type: String::from_str("u32"),
            description: String::from_str(
                "Cache time to live in hours for currency rates, if you don't want to cache rates set it to 0",
            ),
        },
    );
    vars.push(
        EnvVar {
            key: String::from_str("COMMAND_HISTORY_CACHE_TIME_IN_HOURS"),
            value_type: String::from_str("u32"),
            description: String::from_str(
                "Cache time to live in hours for command history, if you don't want to cache rates set it to 0",
            ),
        },
    );
    vars
}

/// Whether the contents of the settings file name every setting.
pub fn check_env_file_has_vars(contents: &str) -> (r: bool)
    ensures
        r == names_every_setting(contents@),
{
    let vars = env_vars();
    let mut i: usize = 0;
    while i < vars.len()
        invariant
            i <= vars.len(),
            vars@.len() == 4,
            forall|j: int| 0 <= j < 4 ==> (#[trigger] vars@[j]).key@ == setting_names()[j],
            forall|j: int| 0 <= j < i ==> has_substring(contents@, #[trigger] setting_names()[j]),
        decreases vars.len() - i,
    {
        if !contains(contents, vars[i].key.as_str()) {
            assert(!has_substring(contents@, setting_names()[i as int]));
            return false;
        }
        i += 1;
    }
    true
}

/// Whether the program is set up: the settings file is there and names every setting.
/// `env_file` holds the contents of the file, or nothing where it is missing or cannot be
/// read.
pub fn health_check(env_file: &Option<String>) -> (r: bool)
    ensures
        r == (match *env_file {
            Some(contents) => names_every_setting(contents@),
            None => false,
        }),
{
    match env_file {
        Some(contents) => check_env_file_has_vars(contents.as_str()),
        None => false,
    }
}

/// What is to be done about the settings file.
#[derive(Clone, Copy, Debug, PartialEq, Eq, Structural)]
pub enum ConfigPlan {
    /// There is no file: ask for every setting and create it.
    CreateFile,
    /// The file lacks a setting: ask for every setting and write it anew.
    AddVariables,
    /// The file names every setting: nothing to do.
    Keep,
}

/// What is to be done about the settings file, or why that cannot be told. `exists` says
/// whether the file is there, and `contents` holds what was read of it, if it could be read.
pub open spec fn config_plan(exists: bool, contents: Option<Seq<char>>) -> Result<
    ConfigPlan,
    Seq<char>,
> {
    if !exists {
        Ok(ConfigPlan::CreateFile)
    } else {
        match contents {
            None => Err("Failed to read .env file"@),
            Some(text) => if names_every_setting(text) {
                Ok(ConfigPlan::Keep)
            } else {
                Ok(ConfigPlan::AddVariables)
            },
        }
    }
}

/// What is to be done about the settings file, or why that cannot be told.
pub fn check_config(exists: bool, contents: &Option<String>) -> (r: Result<ConfigPlan, String>)
    ensures
        match config_plan(
            exists,
            match *contents {
                Some(text) => Some(text@),
                None => None,
            },
        ) {
            Ok(plan) => r == Ok::<ConfigPlan, String>(plan),
            Err(message) => r is Err && r->Err_0@ == message,
        },
{
    if !exists {
        return Ok(ConfigPlan::CreateFile);
    }
    match contents {
        None => Err(String::from_str("Failed to read .env file")),
        Some(text) => {
            if check_env_file_has_vars(text.as_str()) {
                Ok(ConfigPlan::Keep)
            } else {
                Ok(ConfigPlan::AddVariables)
            }
        },
    }
}

/// Whether a value is of the type that its setting asks for, and what is wrong where it is
/// not.
pub open spec fn type_verdict(value: Seq<char>, value_type: Seq<char>) -> Result<(), Seq<char>> {
    if value_type == "String"@ {
        Ok(())
    } else if value_type == "u32"@ {
        if parsed_u32(value) is Some {
            Ok(())
        } else {
            Err("must be a number"@)
        }
    } else {
        Err("Is not a valid type"@)
    }
}

/// Whether a value is of the type that its setting asks for.
pub fn check_type(value: &String, value_type: &str) -> (r: Result<(), String>)
    ensures
        match type_verdict(value@, value_type@) {
            Ok(_) => r is Ok,
            Err(message) => r is Err && r->Err_0@ == message,
        },
{
    if same_text(value_type, "String") {
        Ok(())
    } else if same_text(value_type, "u32") {
        match parse_u32(value.as_str()) {
            Some(_) => Ok(()),
            None => Err(String::from_str("must be a number")),
        }
    } else {
        Err(String::from_str("Is not a valid type"))
    }
}

/// The line of the settings file for one setting, made from what the user typed: the typed
/// text is trimmed; it may not be empty and must be of the setting's type.
pub open spec fn env_line(key: Seq<char>, value_type: Seq<char>, typed: Seq<char>) -> Result<
    Seq<char>,
    Seq<char>,
> {
    let value = trimmed_of(typed);
    if value.len() == 0 {
        Err(key + " cannot be empty"@)
    } else {
        match type_verdict(value, value_type) {
            Err(message) => Err(key + ": "@ + message),
            Ok(_) => Ok(key + "="@ + value),
        }
    }
}

/// The line of the settings file for one setting, made from what the user typed.
pub fn write_env_var(key: &str, value_type: &str, typed: &str) -> (r: Result<String, String>)
    ensures
        match env_line(key@, value_type@, typed@) {
            Ok(line) => r is Ok && r->Ok_0@ == line,
            Err(message) => r is Err && r->Err_0@ == message,
        },
{
    let value = trim(typed);
    if value.as_str().unicode_len() == 0 {
        let mut message = String::from_str(key);
        message.append(" cannot be empty");
        return Err(message);
    }
    match check_type(&value, value_type) {
        Ok(_) => Ok(join3(key, "=", value.as_str())),
        Err(e) => Err(join3(key, ": ", e.as_str())),
    }
}

} // verus!
