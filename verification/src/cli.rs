use vstd::prelude::*;
use vstd::string::StringExecFns;
use crate::text::{join3, same_text};

verus! {

/// What the program was asked to do.
#[derive(Debug, Clone, PartialEq, Eq)]
pub enum Action {
    InteractiveMode,
    DirectConversion { source: String, target: String, amount: String },
    UpdateCache,
    Help,
    Error { message: String },
    ListCurrencies,
    ListCurrenciesWithRates,
    Setup,
    History,
}

/// What an `Action` holds, as mathematical values.
pub enum ActionView {
    InteractiveMode,
    DirectConversion { source: Seq<char>, target: Seq<char>, amount: Seq<char> },
    UpdateCache,
    Help,
    Error { message: Seq<char> },
    ListCurrencies,
    ListCurrenciesWithRates,
    Setup,
    History,
}

impl View for Action {
    type V = ActionView;

    open spec fn view(&self) -> ActionView {
        match *self {
            Action::InteractiveMode => ActionView::InteractiveMode,
            Action::DirectConversion { source, target, amount } => ActionView::DirectConversion {
                source: source@,
                target: target@,
                amount: amount@,
            },
            Action::UpdateCache => ActionView::UpdateCache,
            Action::Help => ActionView::Help,
            Action::Error { message } => ActionView::Error { message: message@ },
            Action::ListCurrencies => ActionView::ListCurrencies,
            Action::ListCurrenciesWithRates => ActionView::ListCurrenciesWithRates,
            Action::Setup => ActionView::Setup,
            Action::History => ActionView::History,
        }
    }
}

/// The actions of a list.
pub open spec fn actions_view(actions: Seq<Action>) -> Seq<ActionView> {
    actions.map_values(|a: Action| a@)
}

/// The texts of a list of arguments.
pub open spec fn arguments_view(args: Seq<String>) -> Seq<Seq<char>> {
    args.map_values(|s: String| s@)
}

/// The action that a single argument names, in its short or its long form.
pub open spec fn single_argument(arg: Seq<char>) -> ActionView {
    if arg == "-i"@ || arg == "interactive"@ {
        ActionView::InteractiveMode
    } else if arg == "-u"@ || arg == "update-cache"@ {
        ActionView::UpdateCache
    } else if arg == "-h"@ || arg == "help"@ {
        ActionView::Help
    } else if arg == "-l"@ || arg == "list-currencies"@ {
        ActionView::ListCurrencies
    } else if arg == "-lr"@ || arg == "list-currencies-with-rates"@ {
        ActionView::ListCurrenciesWithRates
    } else if arg == "-s"@ || arg == "setup"@ {
        ActionView::Setup
    } else if arg == "-H"@ || arg == "history"@ {
        ActionView::History
    } else {
        ActionView::Error { message: "Invalid argument"@ }
    }
}

/// The action that the arguments of the program ask for. The first argument is the name of
/// the program. One more argument names an action; three more are the source currency, the
/// target currency and the amount of a conversion; any other number is an error.
pub open spec fn parsed_arguments(args: Seq<Seq<char>>) -> ActionView {
    if args.len() == 2 {
        single_argument(args[1])
    } else if args.len() == 4 {
        ActionView::DirectConversion { source: args[1], target: args[2], amount: args[3] }
    } else {
        ActionView::Error {
            message: "Invalid number of arguments, use -h to see the list of available commands"@,
        }
    }
}

/// Every action, in the order in which the help lists them. The conversion stands with empty
/// parts.
pub open spec fn all_actions() -> Seq<ActionView> {
    seq![
        ActionView::DirectConversion { source: ""@, target: ""@, amount: ""@ },
        ActionView::InteractiveMode,
        ActionView::UpdateCache,
        ActionView::Help,
        ActionView::ListCurrencies,
        ActionView::ListCurrenciesWithRates,
        ActionView::Setup,
        ActionView::History,
    ]
}

/// The actions that can be chosen from within the interactive mode: all but the interactive
/// mode itself.
pub open spec fn interactive_mode_actions() -> Seq<ActionView> {
    seq![
        ActionView::DirectConversion { source: ""@, target: ""@, amount: ""@ },
        ActionView::UpdateCache,
        ActionView::Help,
        ActionView::ListCurrencies,
        ActionView::ListCurrenciesWithRates,
        ActionView::Setup,
        ActionView::History,
    ]
}

/// The short form of the argument that asks for an action; a conversion and an error have
/// none.
pub open spec fn short_flag_of(action: ActionView) -> Option<Seq<char>> {
    match action {
        ActionView::InteractiveMode => Some("-i"@),
        ActionView::UpdateCache => Some("-u"@),
        ActionView::Help => Some("-h"@),
        ActionView::ListCurrencies => Some("-l"@),
        ActionView::ListCurrenciesWithRates => Some("-lr"@),
        ActionView::Setup => Some("-s"@),
        ActionView::History => Some("-H"@),
        _ => None,
    }
}

/// The word that asks for an action, as an argument or within the interactive mode; an error
/// has none.
pub open spec fn command_name_of(action: ActionView) -> Option<Seq<char>> {
    match action {
        ActionView::InteractiveMode => Some("interactive"@),
        ActionView::DirectConversion { .. } => Some("direct-conversion"@),
        ActionView::UpdateCache => Some("update-cache"@),
        ActionView::Help => Some("help"@),
        ActionView::ListCurrencies => Some("list-currencies"@),
        ActionView::ListCurrenciesWithRates => Some("list-currencies-with-rates"@),
        ActionView::Setup => Some("setup"@),
        ActionView::History => Some("history"@),
        ActionView::Error { .. } => None,
    }
}

/// What the help says of an action; it says nothing of an error.
pub open spec fn description_of(action: ActionView) -> Option<Seq<char>> {
    match action {
        ActionView::InteractiveMode => Some("Run in interactive mode"@),
        ActionView::DirectConversion { .. } => Some("Direct conversion"@),
        ActionView::UpdateCache => Some("Update cache"@),
        ActionView::Help => Some("Print help"@),
        ActionView::ListCurrencies => Some("List supported currencies"@),
        ActionView::ListCurrenciesWithRates => Some("List supported currencies with rates"@),
        ActionView::Setup => Some("Setup application"@),
        ActionView::History => Some("Display history"@),
        ActionView::Error { .. } => None,
    }
}

/// What is announced before an action runs, for the actions that are announced.
pub open spec fn info_of(action: ActionView) -> Option<Seq<char>> {
    match action {
        ActionView::InteractiveMode => Some("Running in interactive mode"@),
        ActionView::UpdateCache => Some("Updating cache"@),
        ActionView::ListCurrencies => Some("Listing supported currencies"@),
        ActionView::ListCurrenciesWithRates => Some("Listing supported currencies with rates"@),
        _ => None,
    }
}

/// The action that a command names within the interactive mode. A conversion stands with
/// empty parts: they are asked for afterwards.
pub open spec fn interactive_command(input: Seq<char>) -> ActionView {
    if input == "direct-conversion"@ {
        ActionView::DirectConversion { source: ""@, target: ""@, amount: ""@ }
    } else if input == "update-cache"@ {
        ActionView::UpdateCache
    } else if input == "help"@ {
        ActionView::Help
    } else if input == "list-currencies"@ {
        ActionView::ListCurrencies
    } else if input == "list-currencies-with-rates"@ {
        ActionView::ListCurrenciesWithRates
    } else if input == "setup"@ {
        ActionView::Setup
    } else if input == "history"@ {
        ActionView::History
    } else {
        ActionView::Error { message: "Invalid command"@ }
    }
}

/// The lines that the help shows for an action, without colours. A conversion, which is asked
/// for by its three parts and by no word, has a heading, an example and a line of its own to
/// set it off; an error has no line; every other action has one line with the two forms of
/// its argument and what it does.
pub open spec fn help_lines_of(action: ActionView) -> Seq<Seq<char>> {
    match action {
        ActionView::DirectConversion { .. } => seq![
            "Default use - Direct conversion"@,
            "<source currency> <target currency> <amount> // Example: USD EUR 1000"@,
            " "@,
        ],
        ActionView::Error { .. } => Seq::empty(),
        _ => seq![
            short_flag_of(action)->0 + " "@ + command_name_of(action)->0 + " - "@
                + description_of(action)->0,
        ],
    }
}

/// The texts of a list of lines.
pub open spec fn lines_view(lines: Seq<String>) -> Seq<Seq<char>> {
    lines.map_values(|line: String| line@)
}

/// The view of a text that may be absent.
pub open spec fn text_view(text: Option<String>) -> Option<Seq<char>> {
    match text {
        Some(t) => Some(t@),
        None => None,
    }
}

impl Action {
    /// The short form of the argument that asks for the action.
    pub fn short_flag(&self) -> (r: Option<String>)
        ensures
            text_view(r) == short_flag_of(self@),
    {
        match self {
            Action::InteractiveMode => Some(String::from_str("-i")),
            Action::UpdateCache => Some(String::from_str("-u")),
            Action::Help => Some(String::from_str("-h")),
            Action::ListCurrencies => Some(String::from_str("-l")),
            Action::ListCurrenciesWithRates => Some(String::from_str("-lr")),
            Action::Setup => Some(String::from_str("-s")),
            Action::History => Some(String::from_str("-H")),
            _ => None,
        }
    }

    /// The word that asks for the action.
    pub fn command_name(&self) -> (r: Option<String>)
        ensures
            text_view(r) == command_name_of(self@),
    {
        match self {
            Action::InteractiveMode => Some(String::from_str("interactive")),
            Action::DirectConversion { .. } => Some(String::from_str("direct-conversion")),
            Action::UpdateCache => Some(String::from_str("update-cache")),
            Action::Help => Some(String::from_str("help")),
            Action::ListCurrencies => Some(String::from_str("list-currencies")),
            Action::ListCurrenciesWithRates => Some(
                String::from_str("list-currencies-with-rates"),
            ),
            Action::Setup => Some(String::from_str("setup")),
            Action::History => Some(String::from_str("history")),
            Action::Error { .. } => None,
        }
    }

    /// What the help says of the action.
    pub fn description(&self) -> (r: Option<String>)
        ensures
            text_view(r) == description_of(self@),
    {
        match self {
            Action::InteractiveMode => Some(String::from_str("Run in interactive mode")),
            Action::DirectConversion { .. } => Some(String::from_str("Direct conversion")),
            Action::UpdateCache => Some(String::from_str("Update cache")),
            Action::Help => Some(String::from_str("Print help")),
            Action::ListCurrencies => Some(String::from_str("List supported currencies")),
            Action::ListCurrenciesWithRates => Some(
                String::from_str("List supported currencies with rates"),
            ),
            Action::Setup => Some(String::from_str("Setup application")),
            Action::History => Some(String::from_str("Display history")),
            Action::Error { .. } => None,
        }
    }

    /// What is announced before the action runs.
    pub fn info(&self) -> (r: Option<String>)
        ensures
            text_view(r) == info_of(self@),
    {
        match self {
            Action::InteractiveMode => Some(String::from_str("Running in interactive mode")),
            Action::UpdateCache => Some(String::from_str("Updating cache")),
            Action::ListCurrencies => Some(String::from_str("Listing supported currencies")),
            Action::ListCurrenciesWithRates => Some(
                String::from_str("Listing supported currencies with rates"),
            ),
            _ => None,
        }
    }

    /// The lines that the help shows for the action, without colours.
    pub fn help_lines(&self) -> (r: Vec<String>)
        ensures
            lines_view(r@) == help_lines_of(self@),
    {
        let mut lines: Vec<String> = Vec::new();
        match self {
            Action::DirectConversion { .. } => {
                lines.push(String::from_str("Default use - Direct conversion"));
                lines.push(
                    String::from_str(
                        "<source currency> <target currency> <amount> // Example: USD EUR 1000",
                    ),
                );
                lines.push(String::from_str(" "));
            },
            Action::Error { .. } => {},
            _ => {
                let flag = self.short_flag();
                let name = self.command_name();
                let description = self.description();
                match (flag, name, description) {
                    (Some(flag), Some(name), Some(description)) => {
                        let mut line = join3(flag.as_str(), " ", name.as_str());
                        line.append(" - ");
                        line.append(description.as_str());
                        lines.push(line);
                    },
                    _ => {},
                }
            },
        }
        assert(lines_view(lines@) =~= help_lines_of(self@));
        lines
    }

    /// The action that a command names within the interactive mode.
    pub fn from_interactive_mode(input: &str) -> (r: Action)
        ensures
            r@ == interactive_command(input@),
    {
        if same_text(input, "direct-conversion") {
            Action::DirectConversion {
                source: String::from_str(""),
                target: String::from_str(""),
                amount: String::from_str(""),
            }
        } else if same_text(input, "update-cache") {
            Action::UpdateCache
        } else if same_text(input, "help") {
            Action::Help
        } else if same_text(input, "list-currencies") {
            Action::ListCurrencies
        } else if same_text(input, "list-currencies-with-rates") {
            Action::ListCurrenciesWithRates
        } else if same_text(input, "setup") {
            Action::Setup
        } else if same_text(input, "history") {
            Action::History
        } else {
            Action::Error { message: String::from_str("Invalid command") }
        }
    }

    /// Every action, in the order of the help.
    pub fn get_all_actions() -> (r: Vec<Action>)
        ensures
            actions_view(r@) == all_actions(),
    {
        let mut actions: Vec<Action> = Vec::new();
        actions.push(
            Action::DirectConversion {
                source: String::from_str(""),
                target: String::from_str(""),
                amount: String::from_str(""),
            },
        );
        actions.push(Action::InteractiveMode);
        actions.push(Action::UpdateCache);
        actions.push(Action::Help);
        actions.push(Action::ListCurrencies);
        actions.push(Action::ListCurrenciesWithRates);
        actions.push(Action::Setup);
        actions.push(Action::History);
        assert(actions_view(actions@) =~= all_actions());
        actions
    }

    /// The actions that can be chosen from within the interactive mode.
    pub fn get_interactive_mode_actions() -> (r: Vec<Action>)
        ensures
            actions_view(r@) == interactive_mode_actions(),
            forall|i: int| 0 <= i < r.len() ==> !(#[trigger] r[i] is InteractiveMode),
    {
        let mut all = Action::get_all_actions();
        assert(all.len() == 8) by {
            assert(actions_view(all@).len() == 8);
        }
        assert(forall|i: int| 0 <= i < 8 ==> actions_view(all@)[i] == #[trigger] all@[i]@);
        let _interactive = all.remove(1);
        assert(actions_view(all@) =~= interactive_mode_actions());
        assert(forall|i: int| 0 <= i < 7 ==> actions_view(all@)[i] == #[trigger] all@[i]@);
        all
    }

    /// The action that a single argument names.
    pub fn new_from_single_argument(arg: &str) -> (r: Action)
        ensures
            r@ == single_argument(arg@),
    {
        if same_text(arg, "-i") || same_text(arg, "interactive") {
            Action::InteractiveMode
        } else if same_text(arg, "-u") || same_text(arg, "update-cache") {
            Action::UpdateCache
        } else if same_text(arg, "-h") || same_text(arg, "help") {
            Action::Help
        } else if same_text(arg, "-l") || same_text(arg, "list-currencies") {
            Action::ListCurrencies
        } else if same_text(arg, "-lr") || same_text(arg, "list-currencies-with-rates") {
            Action::ListCurrenciesWithRates
        } else if same_text(arg, "-s") || same_text(arg, "setup") {
            Action::Setup
        } else if same_text(arg, "-H") || same_text(arg, "history") {
            Action::History
        } else {
            Action::Error { message: String::from_str("Invalid argument") }
        }
    }

    /// The conversion of an amount from one currency to another.
    pub fn new_direct_conversion(source: String, target: String, amount: String) -> (r: Action)
        ensures
            r@ == (ActionView::DirectConversion {
                source: source@,
                target: target@,
                amount: amount@,
            }),
    {
        Action::DirectConversion { source, target, amount }
    }
}

/// The action that the arguments of the program ask for.
pub fn parse_cli_arguments(args: Vec<String>) -> (r: Action)
    ensures
        r@ == parsed_arguments(arguments_view(args@)),
{
    if args.len() == 2 {
        return Action::new_from_single_argument(args[1].as_str());
    }
    if args.len() == 4 {
        return Action::new_direct_conversion(args[1].clone(), args[2].clone(), args[3].clone());
    }
    Action::Error {
        message: String::from_str(
            "Invalid number of arguments, use -h to see the list of available commands",
        ),
    }
}

} // verus!
