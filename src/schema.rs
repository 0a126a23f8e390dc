use vstd::prelude::*;
use crate::commands::{
    lemma_command_names_distinct,
    CountCommand, GetHaikuCommand, RandomHaikuCommand, SearchCommand, UptimeCommand,
    COUNT_COMMAND_NAME, GET_HAIKU_COMMAND_NAME, RANDOM_HAIKU_COMMAND_NAME, SEARCH_COMMAND_NAME,
    UPTIME_COMMAND_NAME,
};

verus! {

/// The type of value a command parameter takes.
#[derive(Clone, Copy, Debug, PartialEq, Eq, Structural)]
pub enum ParameterKind {
    String,
    Integer,
    Boolean,
}

/// One declared parameter of a command.
#[derive(Debug)]
pub struct ParameterSpec {
    pub name: String,
    pub description: String,
    pub kind: ParameterKind,
    pub required: bool,
}

/// A command's name, description and parameters, as registered with the
/// platform.
#[derive(Debug)]
pub struct CommandSpec {
    pub name: String,
    pub description: String,
    pub parameters: Vec<ParameterSpec>,
}

/// The parameters that the command `name` declares: their names, kinds and
/// descriptions, all of them required.
pub open spec fn schema_params(name: Seq<char>) -> Seq<(Seq<char>, ParameterKind, Seq<char>)> {
    if name == UPTIME_COMMAND_NAME@ {
        seq![]
    } else if name == COUNT_COMMAND_NAME@ {
        seq![("phrase"@, ParameterKind::String, "The phrase to count"@)]
    } else if name == GET_HAIKU_COMMAND_NAME@ {
        seq![("id"@, ParameterKind::Integer, "Id of the haiku to fetch"@)]
    } else if name == RANDOM_HAIKU_COMMAND_NAME@ {
        seq![]
    } else if name == SEARCH_COMMAND_NAME@ {
        seq![
            (
                "keywords"@,
                ParameterKind::String,
                "A set of keywords to search for, separated by spaces"@,
            ),
        ]
    } else {
        seq![]
    }
}

/// The description that the command `name` is registered with.
pub open spec fn command_description(name: Seq<char>) -> Seq<char> {
    if name == UPTIME_COMMAND_NAME@ {
        "Show how long since the bot was last restarted"@
    } else if name == COUNT_COMMAND_NAME@ {
        "Count the number of syllables in a given phrase"@
    } else if name == GET_HAIKU_COMMAND_NAME@ {
        "Fetch a specific haiku from this server by its id"@
    } else if name == RANDOM_HAIKU_COMMAND_NAME@ {
        "Fetch a random haiku from this server"@
    } else if name == SEARCH_COMMAND_NAME@ {
        "Search for a haiku"@
    } else {
        seq![]
    }
}

/// Whether `c` is the schema of its command: its description and exactly
/// the parameters of the command's schema.
pub open spec fn conforms(c: CommandSpec) -> bool {
    let ps = schema_params(c.name@);
    &&& c.description@ == command_description(c.name@)
    &&& c.parameters@.len() == ps.len()
    &&& forall|k: int|
        0 <= k < ps.len() ==> {
            &&& (#[trigger] c.parameters@[k]).name@ == ps[k].0
            &&& c.parameters@[k].kind == ps[k].1
            &&& c.parameters@[k].description@ == ps[k].2
            &&& c.parameters@[k].required
        }
}

/// Whether two parameters of `c` share a name.
pub open spec fn has_duplicate_parameter(c: CommandSpec) -> bool {
    exists|a: int, b: int|
        0 <= a < b < c.parameters@.len() && #[trigger] c.parameters@[a].name@
            == #[trigger] c.parameters@[b].name@
}

fn required_parameter(name: &str, description: &str, kind: ParameterKind) -> (r: ParameterSpec)
    ensures
        r.name@ == name@,
        r.description@ == description@,
        r.kind == kind,
        r.required,
{
    ParameterSpec { name: name.to_owned(), description: description.to_owned(), kind, required: true }
}

impl UptimeCommand {
    pub fn register() -> (r: CommandSpec)
        ensures
            r.name@ == UPTIME_COMMAND_NAME@,
            r.description@ == "Show how long since the bot was last restarted"@,
            conforms(r),
    {
        CommandSpec {
            name: UPTIME_COMMAND_NAME.to_owned(),
            description: "Show how long since the bot was last restarted".to_owned(),
            parameters: Vec::new(),
        }
    }
}

impl CountCommand {
    pub fn register() -> (r: CommandSpec)
        ensures
            r.name@ == COUNT_COMMAND_NAME@,
            r.description@ == "Count the number of syllables in a given phrase"@,
            r.parameters@.len() == 1,
            r.parameters@[0].description@ == "The phrase to count"@,
            conforms(r),
    {
        proof {
            lemma_command_names_distinct();
        }
        let p = required_parameter("phrase", "The phrase to count", ParameterKind::String);
        CommandSpec {
            name: COUNT_COMMAND_NAME.to_owned(),
            description: "Count the number of syllables in a given phrase".to_owned(),
            parameters: vec![p],
        }
    }
}

impl GetHaikuCommand {
    pub fn register() -> (r: CommandSpec)
        ensures
            r.name@ == GET_HAIKU_COMMAND_NAME@,
            r.description@ == "Fetch a specific haiku from this server by its id"@,
            r.parameters@.len() == 1,
            r.parameters@[0].description@ == "Id of the haiku to fetch"@,
            conforms(r),
    {
        proof {
            lemma_command_names_distinct();
        }
        let p = required_parameter("id", "Id of the haiku to fetch", ParameterKind::Integer);
        CommandSpec {
            name: GET_HAIKU_COMMAND_NAME.to_owned(),
            description: "Fetch a specific haiku from this server by its id".to_owned(),
            parameters: vec![p],
        }
    }
}

impl RandomHaikuCommand {
    pub fn register() -> (r: CommandSpec)
        ensures
            r.name@ == RANDOM_HAIKU_COMMAND_NAME@,
            r.description@ == "Fetch a random haiku from this server"@,
            conforms(r),
    {
        proof {
            lemma_command_names_distinct();
        }
        CommandSpec {
            name: RANDOM_HAIKU_COMMAND_NAME.to_owned(),
            description: "Fetch a random haiku from this server".to_owned(),
            parameters: Vec::new(),
        }
    }
}

impl SearchCommand {
    pub fn register() -> (r: CommandSpec)
        ensures
            r.name@ == SEARCH_COMMAND_NAME@,
            r.description@ == "Search for a haiku"@,
            r.parameters@.len() == 1,
            r.parameters@[0].description@ == "A set of keywords to search for, separated by spaces"@,
            conforms(r),
    {
        proof {
            lemma_command_names_distinct();
        }
        let p = required_parameter(
            "keywords",
            "A set of keywords to search for, separated by spaces",
            ParameterKind::String,
        );
        CommandSpec {
            name: SEARCH_COMMAND_NAME.to_owned(),
            description: "Search for a haiku".to_owned(),
            parameters: vec![p],
        }
    }
}

/// The names of the supported commands, in registration order.
pub open spec fn command_names() -> Seq<Seq<char>> {
    seq![
        UPTIME_COMMAND_NAME@,
        COUNT_COMMAND_NAME@,
        GET_HAIKU_COMMAND_NAME@,
        RANDOM_HAIKU_COMMAND_NAME@,
        SEARCH_COMMAND_NAME@,
    ]
}

/// The schemas of all supported commands.
pub fn command_specs() -> (r: Vec<CommandSpec>)
    ensures
        r@.len() == command_names().len(),
        forall|k: int| 0 <= k < r@.len() ==> (#[trigger] r@[k]).name@ == command_names()[k] && conforms(r@[k]),
{
    let r = vec![
        UptimeCommand::register(),
        CountCommand::register(),
        GetHaikuCommand::register(),
        RandomHaikuCommand::register(),
        SearchCommand::register(),
    ];
    r
}

} // verus!
