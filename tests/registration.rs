use haiku_bot::commands::{CountCommand, GetHaikuCommand, SearchCommand, UptimeCommand};
use haiku_bot::registry::{register_commands, CommandRegistry, RegistrationError};
use haiku_bot::schema::{command_specs, CommandSpec, ParameterKind, ParameterSpec};

fn param(name: &str, kind: ParameterKind) -> ParameterSpec {
    ParameterSpec { name: name.to_string(), description: String::new(), kind, required: true }
}

#[test]
fn schemas_declare_their_parameters() {
    let c = CountCommand::register();
    assert_eq!(c.name, "count");
    assert_eq!(c.description, "Count the number of syllables in a given phrase");
    assert_eq!(c.parameters[0].description, "The phrase to count");
    assert_eq!(c.parameters.len(), 1);
    assert_eq!(c.parameters[0].name, "phrase");
    assert_eq!(c.parameters[0].kind, ParameterKind::String);
    assert!(c.parameters[0].required);
    let g = GetHaikuCommand::register();
    assert_eq!(g.parameters[0].name, "id");
    assert_eq!(g.parameters[0].kind, ParameterKind::Integer);
    let s = SearchCommand::register();
    assert_eq!(s.parameters[0].name, "keywords");
    assert!(UptimeCommand::register().parameters.is_empty());
}

#[test]
fn all_commands_register() {
    let mut reg = CommandRegistry::new();
    let names = register_commands(&mut reg).unwrap();
    assert_eq!(names, vec!["uptime", "count", "gethaiku", "randomhaiku", "search"]);
    assert_eq!(reg.len(), 5);
    let specs = command_specs();
    assert_eq!(specs.len(), 5);
    assert_eq!(specs[4].description, "Search for a haiku");
    assert_eq!(reg.commands()[0].description, "Show how long since the bot was last restarted");
}

#[test]
fn registering_twice_replaces_by_name() {
    let mut reg = CommandRegistry::new();
    register_commands(&mut reg).unwrap();
    let names = register_commands(&mut reg).unwrap();
    assert_eq!(names.len(), 5);
    assert_eq!(reg.len(), 5);
    let extra = CommandSpec { name: "extra".to_string(), description: String::new(), parameters: vec![] };
    reg.register(vec![extra]).unwrap();
    assert_eq!(reg.len(), 6);
}

#[test]
fn duplicate_parameter_is_refused() {
    let mut reg = CommandRegistry::new();
    let bad = CommandSpec {
        name: "bad".to_string(),
        description: String::new(),
        parameters: vec![param("x", ParameterKind::String), param("y", ParameterKind::Boolean), param("x", ParameterKind::Integer)],
    };
    let good = CommandSpec { name: "good".to_string(), description: String::new(), parameters: vec![] };
    assert_eq!(reg.register(vec![good, bad]), Err(RegistrationError::DuplicateParameter));
    assert_eq!(reg.len(), 0);
}
