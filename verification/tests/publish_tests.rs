use command_dispatch::publish::{registration_plan, Registration};
use command_dispatch::registry::{CommandDef, Registry};
use command_dispatch::routing::{routing_key_matches, routing_keys};

fn def(name: &str) -> CommandDef<u8, u8> {
    CommandDef {
        name: String::from(name),
        description: String::from("a command"),
        parameters: Vec::new(),
        default_enabled: Some(true),
        handler: 0,
        error_handler: None,
    }
}

#[test]
fn registration_plan_covers_every_pair_in_order() {
    let reg = Registry::build(vec![def("start"), def("pick")])
        .unwrap_or_else(|_| panic!("unique names"));
    let plan = registration_plan(&reg, &vec![10u64, 20u64]);
    let expected = vec![
        Registration { command_index: 0, scope: 10 },
        Registration { command_index: 0, scope: 20 },
        Registration { command_index: 1, scope: 10 },
        Registration { command_index: 1, scope: 20 },
    ];
    assert_eq!(plan, expected);
}

#[test]
fn registration_plan_without_scopes_is_empty() {
    let reg = Registry::build(vec![def("start")]).unwrap_or_else(|_| panic!("unique names"));
    let plan = registration_plan(&reg, &Vec::new());
    assert!(plan.is_empty());
}

#[test]
fn routing_keys_put_the_primary_pattern_first() {
    let keys = routing_keys(&vec![String::from("MESSAGE.CREATE")]);
    assert_eq!(
        keys,
        vec![
            String::from("INTERACTION.APPLICATION_COMMAND.*"),
            String::from("MESSAGE.CREATE"),
        ]
    );
}

#[test]
fn routing_key_prefix_decides_interest() {
    assert!(routing_key_matches("INTERACTION.APPLICATION_COMMAND.CREATE"));
    assert!(routing_key_matches("INTERACTION.APPLICATION_COMMAND"));
    assert!(!routing_key_matches("INTERACTION.APPLICATION"));
    assert!(!routing_key_matches("MESSAGE.CREATE"));
    assert!(!routing_key_matches(""));
}
