use command_dispatch::registry::{CommandDef, Registry};

fn def(name: &str, error_handler: Option<u8>) -> CommandDef<u8, u8> {
    CommandDef {
        name: String::from(name),
        description: String::from("a command"),
        parameters: Vec::new(),
        default_enabled: None,
        handler: 0,
        error_handler,
    }
}

#[test]
fn registry_build_unique_names_succeeds() {
    let reg = Registry::build(vec![def("start", None), def("pick", None), def("info", None)])
        .unwrap_or_else(|_| panic!("construction must succeed on unique names"));
    assert_eq!(reg.len(), 3);
    assert_eq!(reg.lookup(&String::from("start")), Some(0));
    assert_eq!(reg.lookup(&String::from("pick")), Some(1));
    assert_eq!(reg.lookup(&String::from("info")), Some(2));
    assert_eq!(reg.get(1).name, "pick");
}

#[test]
fn registry_build_duplicate_fails_naming_offender() {
    let r = Registry::build(vec![def("pick", None), def("pick", None)]);
    match r {
        Ok(_) => panic!("construction must fail on a duplicate name"),
        Err(e) => assert_eq!(e.name, "pick"),
    }
}

#[test]
fn registry_build_duplicate_among_others_fails() {
    let r = Registry::build(vec![
        def("start", None),
        def("pick", None),
        def("start", Some(1)),
    ]);
    match r {
        Ok(_) => panic!("construction must fail on a duplicate name"),
        Err(e) => assert_eq!(e.name, "start"),
    }
}

#[test]
fn registry_lookup_unknown_name_is_none() {
    let reg = Registry::build(vec![def("start", None)]).unwrap_or_else(|_| panic!("unique"));
    assert_eq!(reg.lookup(&String::from("missing")), None);
}

#[test]
fn registry_build_empty_list_succeeds() {
    let reg: Registry<u8, u8> =
        Registry::build(Vec::new()).unwrap_or_else(|_| panic!("empty list has no duplicates"));
    assert_eq!(reg.len(), 0);
}
