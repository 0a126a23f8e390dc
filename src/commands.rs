use vstd::prelude::*;
use crate::schema::{schema_params, ParameterKind};
use crate::interaction::{find_option, find_from, same_text, Interaction, InteractionOption, OptionValue};

verus! {

pub const UPTIME_COMMAND_NAME: &'static str = "uptime";
pub const COUNT_COMMAND_NAME: &'static str = "count";
pub const GET_HAIKU_COMMAND_NAME: &'static str = "gethaiku";
pub const RANDOM_HAIKU_COMMAND_NAME: &'static str = "randomhaiku";
pub const SEARCH_COMMAND_NAME: &'static str = "search";

/// The supported command names are pairwise distinct.
pub proof fn lemma_command_names_distinct()
    ensures
        UPTIME_COMMAND_NAME@ != COUNT_COMMAND_NAME@,
        UPTIME_COMMAND_NAME@ != GET_HAIKU_COMMAND_NAME@,
        UPTIME_COMMAND_NAME@ != RANDOM_HAIKU_COMMAND_NAME@,
        UPTIME_COMMAND_NAME@ != SEARCH_COMMAND_NAME@,
        COUNT_COMMAND_NAME@ != GET_HAIKU_COMMAND_NAME@,
        COUNT_COMMAND_NAME@ != RANDOM_HAIKU_COMMAND_NAME@,
        COUNT_COMMAND_NAME@ != SEARCH_COMMAND_NAME@,
        GET_HAIKU_COMMAND_NAME@ != RANDOM_HAIKU_COMMAND_NAME@,
        GET_HAIKU_COMMAND_NAME@ != SEARCH_COMMAND_NAME@,
        RANDOM_HAIKU_COMMAND_NAME@ != SEARCH_COMMAND_NAME@,
{
    reveal_strlit("uptime");
    reveal_strlit("count");
    reveal_strlit("gethaiku");
    reveal_strlit("randomhaiku");
    reveal_strlit("search");
    assert(UPTIME_COMMAND_NAME@[0] != COUNT_COMMAND_NAME@[0]);
    assert(UPTIME_COMMAND_NAME@[0] != GET_HAIKU_COMMAND_NAME@[0]);
    assert(UPTIME_COMMAND_NAME@[0] != RANDOM_HAIKU_COMMAND_NAME@[0]);
    assert(UPTIME_COMMAND_NAME@[0] != SEARCH_COMMAND_NAME@[0]);
    assert(COUNT_COMMAND_NAME@[0] != GET_HAIKU_COMMAND_NAME@[0]);
    assert(COUNT_COMMAND_NAME@[0] != RANDOM_HAIKU_COMMAND_NAME@[0]);
    assert(COUNT_COMMAND_NAME@[0] != SEARCH_COMMAND_NAME@[0]);
    assert(GET_HAIKU_COMMAND_NAME@[0] != RANDOM_HAIKU_COMMAND_NAME@[0]);
    assert(GET_HAIKU_COMMAND_NAME@[0] != SEARCH_COMMAND_NAME@[0]);
    assert(RANDOM_HAIKU_COMMAND_NAME@[0] != SEARCH_COMMAND_NAME@[0]);
}

/// Why an interaction could not be turned into a command.
#[derive(Clone, Copy, Debug, PartialEq, Eq, Structural)]
pub enum ParseError {
    MissingOption,
    InvalidOption,
    UnknownCommand,
}

/// A handler could not complete, e.g. the platform rejected its response.
#[derive(Clone, Copy, Debug, PartialEq, Eq, Structural)]
pub struct InvocationError;

/// The text of the required string option `name`.
pub open spec fn string_option(opts: Seq<InteractionOption>, name: Seq<char>) -> Result<Seq<char>, ParseError> {
    match find_from(opts, name, 0) {
        None => Err(ParseError::MissingOption),
        Some(i) => match opts[i].resolved {
            None => Err(ParseError::MissingOption),
            Some(OptionValue::String(s)) => Ok(s@),
            Some(_) => Err(ParseError::InvalidOption),
        },
    }
}

/// The value of the required integer option `name`.
pub open spec fn integer_option(opts: Seq<InteractionOption>, name: Seq<char>) -> Result<i64, ParseError> {
    match find_from(opts, name, 0) {
        None => Err(ParseError::MissingOption),
        Some(i) => match opts[i].resolved {
            None => Err(ParseError::MissingOption),
            Some(OptionValue::Integer(n)) => Ok(n),
            Some(_) => Err(ParseError::InvalidOption),
        },
    }
}

fn get_string_option(opts: &Vec<InteractionOption>, name: &str) -> (r: Result<String, ParseError>)
    ensures
        match (r, string_option(opts@, name@)) {
            (Ok(s), Ok(t)) => s@ == t,
            (Err(e), Err(f)) => e == f,
            _ => false,
        },
{
    match find_option(opts, name) {
        None => Err(ParseError::MissingOption),
        Some(i) => match &opts[i].resolved {
            None => Err(ParseError::MissingOption),
            Some(OptionValue::String(s)) => Ok(s.clone()),
            Some(_) => Err(ParseError::InvalidOption),
        },
    }
}

fn get_integer_option(opts: &Vec<InteractionOption>, name: &str) -> (r: Result<i64, ParseError>)
    ensures
        r == integer_option(opts@, name@),
{
    match find_option(opts, name) {
        None => Err(ParseError::MissingOption),
        Some(i) => match &opts[i].resolved {
            None => Err(ParseError::MissingOption),
            Some(OptionValue::Integer(n)) => Ok(*n),
            Some(_) => Err(ParseError::InvalidOption),
        },
    }
}

/// Reports how long the bot has been running.
#[derive(Clone, Copy, Debug, PartialEq, Eq, Structural)]
pub struct UptimeCommand;

/// Counts the syllables of a phrase.
#[derive(Debug)]
pub struct CountCommand {
    pub phrase: String,
}

/// Fetches one haiku of the server by its id.
#[derive(Clone, Copy, Debug, PartialEq, Eq, Structural)]
pub struct GetHaikuCommand {
    pub id: i64,
}

/// Fetches a random haiku of the server.
#[derive(Clone, Copy, Debug, PartialEq, Eq, Structural)]
pub struct RandomHaikuCommand;

/// Searches the server's haikus for keywords; a parsed search has at least
/// one.
#[derive(Debug)]
pub struct SearchCommand {
    pub keywords: Vec<String>,
}

/// The words of `s`, as `str::split_whitespace` separates them.
pub uninterp spec fn words_of(s: Seq<char>) -> Seq<Seq<char>>;

/// Relies on str::split_whitespace: the words of `s`, split at runs of
/// whitespace; a text without characters has no words.
#[verifier::external_body]
fn split_words(s: &String) -> (r: Vec<String>)
    ensures
        words_are(r@, words_of(s@)),
        s@.len() == 0 ==> r@.len() == 0,
{
    s.split_whitespace().map(|w| w.to_owned()).collect()
}

/// Whether the texts of `v` are the words `w`, in order.
pub open spec fn words_are(v: Seq<String>, w: Seq<Seq<char>>) -> bool {
    &&& v.len() == w.len()
    &&& forall|k: int| 0 <= k < v.len() ==> (#[trigger] v[k])@ == w[k]
}

/// A parsed command: one variant per supported command, each with its
/// validated fields.
#[derive(Debug)]
pub enum Commands {
    Uptime(UptimeCommand),
    Count(CountCommand),
    GetHaiku(GetHaikuCommand),
    RandomHaiku(RandomHaikuCommand),
    Search(SearchCommand),
}

/// Whether `name` is the name of a supported command.
pub open spec fn known_command(name: Seq<char>) -> bool {
    name == UPTIME_COMMAND_NAME@ || name == COUNT_COMMAND_NAME@ || name == GET_HAIKU_COMMAND_NAME@
        || name == RANDOM_HAIKU_COMMAND_NAME@ || name == SEARCH_COMMAND_NAME@
}

/// Whether `r` is what parsing the interaction `i` gives.
pub open spec fn parses_to(i: Interaction, r: Result<Commands, ParseError>) -> bool {
    let n = i.name@;
    let opts = i.options@;
    if n == UPTIME_COMMAND_NAME@ {
        r is Ok && r->Ok_0 is Uptime
    } else if n == COUNT_COMMAND_NAME@ {
        match string_option(opts, "phrase"@) {
            Ok(s) => r matches Ok(Commands::Count(c)) && c.phrase@ == s,
            Err(e) => r == Err::<Commands, ParseError>(e),
        }
    } else if n == GET_HAIKU_COMMAND_NAME@ {
        match integer_option(opts, "id"@) {
            Ok(v) => r matches Ok(Commands::GetHaiku(c)) && c.id == v,
            Err(e) => r == Err::<Commands, ParseError>(e),
        }
    } else if n == RANDOM_HAIKU_COMMAND_NAME@ {
        r is Ok && r->Ok_0 is RandomHaiku
    } else if n == SEARCH_COMMAND_NAME@ {
        match string_option(opts, "keywords"@) {
            Ok(s) => if words_of(s).len() == 0 {
                r == Err::<Commands, ParseError>(ParseError::InvalidOption)
            } else {
                r matches Ok(Commands::Search(c)) && words_are(c.keywords@, words_of(s))
            },
            Err(e) => r == Err::<Commands, ParseError>(e),
        }
    } else {
        r == Err::<Commands, ParseError>(ParseError::UnknownCommand)
    }
}

impl UptimeCommand {
    pub fn parse(_interaction: &Interaction) -> (r: Result<UptimeCommand, ParseError>)
        ensures
            r is Ok,
    {
        Ok(UptimeCommand)
    }
}

impl CountCommand {
    pub fn parse(interaction: &Interaction) -> (r: Result<CountCommand, ParseError>)
        ensures
            match (r, string_option(interaction.options@, "phrase"@)) {
                (Ok(c), Ok(s)) => c.phrase@ == s,
                (Err(e), Err(f)) => e == f,
                _ => false,
            },
    {
        match get_string_option(&interaction.options, "phrase") {
            Ok(phrase) => Ok(CountCommand { phrase }),
            Err(e) => Err(e),
        }
    }
}

impl GetHaikuCommand {
    pub fn parse(interaction: &Interaction) -> (r: Result<GetHaikuCommand, ParseError>)
        ensures
            match (r, integer_option(interaction.options@, "id"@)) {
                (Ok(c), Ok(v)) => c.id == v,
                (Err(e), Err(f)) => e == f,
                _ => false,
            },
    {
        match get_integer_option(&interaction.options, "id") {
            Ok(id) => Ok(GetHaikuCommand { id }),
            Err(e) => Err(e),
        }
    }
}

impl RandomHaikuCommand {
    pub fn parse(_interaction: &Interaction) -> (r: Result<RandomHaikuCommand, ParseError>)
        ensures
            r is Ok,
    {
        Ok(RandomHaikuCommand)
    }
}

impl SearchCommand {
    pub fn parse(interaction: &Interaction) -> (r: Result<SearchCommand, ParseError>)
        ensures
            match (r, string_option(interaction.options@, "keywords"@)) {
                (Ok(c), Ok(s)) => words_of(s).len() > 0 && words_are(c.keywords@, words_of(s)),
                (Err(e), Ok(s)) => words_of(s).len() == 0 && e == ParseError::InvalidOption,
                (Err(e), Err(f)) => e == f,
                _ => false,
            },
    {
        match get_string_option(&interaction.options, "keywords") {
            Ok(text) => {
                let keywords = split_words(&text);
                if keywords.len() == 0 {
                    Err(ParseError::InvalidOption)
                } else {
                    Ok(SearchCommand { keywords })
                }
            },
            Err(e) => Err(e),
        }
    }
}

impl Commands {
    /// Classifies an interaction by its command name and validates the
    /// command's required options.
    pub fn parse(interaction: &Interaction) -> (r: Result<Commands, ParseError>)
        ensures
            parses_to(*interaction, r),
    {
        let name = &interaction.name;
        if same_text(name, UPTIME_COMMAND_NAME) {
            match UptimeCommand::parse(interaction) {
                Ok(c) => Ok(Commands::Uptime(c)),
                Err(e) => Err(e),
            }
        } else if same_text(name, COUNT_COMMAND_NAME) {
            match CountCommand::parse(interaction) {
                Ok(c) => Ok(Commands::Count(c)),
                Err(e) => Err(e),
            }
        } else if same_text(name, GET_HAIKU_COMMAND_NAME) {
            match GetHaikuCommand::parse(interaction) {
                Ok(c) => Ok(Commands::GetHaiku(c)),
                Err(e) => Err(e),
            }
        } else if same_text(name, RANDOM_HAIKU_COMMAND_NAME) {
            match RandomHaikuCommand::parse(interaction) {
                Ok(c) => Ok(Commands::RandomHaiku(c)),
                Err(e) => Err(e),
            }
        } else if same_text(name, SEARCH_COMMAND_NAME) {
            match SearchCommand::parse(interaction) {
                Ok(c) => Ok(Commands::Search(c)),
                Err(e) => Err(e),
            }
        } else {
            Err(ParseError::UnknownCommand)
        }
    }
}

/// Whether `v` is a value of the kind `k`.
pub open spec fn has_kind(v: OptionValue, k: ParameterKind) -> bool {
    match (v, k) {
        (OptionValue::String(_), ParameterKind::String) => true,
        (OptionValue::Integer(_), ParameterKind::Integer) => true,
        (OptionValue::Boolean(_), ParameterKind::Boolean) => true,
        _ => false,
    }
}

/// Whether `opts` carries a resolved value for the option `name`.
pub open spec fn option_present(opts: Seq<InteractionOption>, name: Seq<char>) -> bool {
    find_from(opts, name, 0) matches Some(i) && opts[i].resolved is Some
}

/// Whether `opts` carries a value of the right kind for the parameter `p`.
pub open spec fn supplies(opts: Seq<InteractionOption>, p: (Seq<char>, ParameterKind, Seq<char>)) -> bool {
    &&& option_present(opts, p.0)
    &&& has_kind(opts[find_from(opts, p.0, 0)->Some_0].resolved->Some_0, p.1)
}

/// Whether the keywords text of `opts`, where it is one, holds a word.
pub open spec fn has_keywords(opts: Seq<InteractionOption>) -> bool {
    string_option(opts, "keywords"@) matches Ok(s) ==> words_of(s).len() > 0
}

/// The name of the command that `c` is a parsed form of.
pub open spec fn command_name(c: Commands) -> Seq<char> {
    match c {
        Commands::Uptime(_) => UPTIME_COMMAND_NAME@,
        Commands::Count(_) => COUNT_COMMAND_NAME@,
        Commands::GetHaiku(_) => GET_HAIKU_COMMAND_NAME@,
        Commands::RandomHaiku(_) => RANDOM_HAIKU_COMMAND_NAME@,
        Commands::Search(_) => SEARCH_COMMAND_NAME@,
    }
}

/// An interaction that names a supported command and carries each of the
/// command's parameters with a value of the declared kind parses into that
/// command.
pub proof fn lemma_well_formed_parses(i: Interaction, r: Result<Commands, ParseError>)
    requires
        known_command(i.name@),
        forall|k: int|
            0 <= k < schema_params(i.name@).len() ==> supplies(i.options@, #[trigger] schema_params(i.name@)[k]),
        i.name@ == SEARCH_COMMAND_NAME@ ==> has_keywords(i.options@),
        parses_to(i, r),
    ensures
        r matches Ok(c) && command_name(c) == i.name@,
{
    lemma_command_names_distinct();
    if schema_params(i.name@).len() > 0 {
        assert(supplies(i.options@, schema_params(i.name@)[0]));
    }
}

/// A search whose keywords text holds no word fails to parse with
/// `InvalidOption`.
pub proof fn lemma_blank_keywords_rejected(i: Interaction, r: Result<Commands, ParseError>)
    requires
        i.name@ == SEARCH_COMMAND_NAME@,
        !has_keywords(i.options@),
        parses_to(i, r),
    ensures
        r == Err::<Commands, ParseError>(ParseError::InvalidOption),
{
    lemma_command_names_distinct();
}

/// An interaction without a value for one of its command's parameters
/// fails to parse with `MissingOption`.
pub proof fn lemma_missing_option_rejected(i: Interaction, r: Result<Commands, ParseError>, k: int)
    requires
        0 <= k < schema_params(i.name@).len(),
        !option_present(i.options@, schema_params(i.name@)[k].0),
        parses_to(i, r),
    ensures
        r == Err::<Commands, ParseError>(ParseError::MissingOption),
{
}

/// An interaction whose value for one of its command's parameters is of
/// another kind than declared fails to parse with `InvalidOption`.
pub proof fn lemma_wrong_kind_rejected(i: Interaction, r: Result<Commands, ParseError>, k: int)
    requires
        0 <= k < schema_params(i.name@).len(),
        option_present(i.options@, schema_params(i.name@)[k].0),
        !supplies(i.options@, schema_params(i.name@)[k]),
        parses_to(i, r),
    ensures
        r == Err::<Commands, ParseError>(ParseError::InvalidOption),
{
}

/// An interaction naming no supported command fails to parse with
/// `UnknownCommand`.
pub proof fn lemma_unknown_command_rejected(i: Interaction, r: Result<Commands, ParseError>)
    requires
        !known_command(i.name@),
        parses_to(i, r),
    ensures
        r == Err::<Commands, ParseError>(ParseError::UnknownCommand),
{
}

} // verus!
