use konfig_rust::format::{Format, FormatHandler};
use konfig_rust::{KonfigError, KonfigManager, KonfigOptions, KonfigSection};
use serde_json::Value;
use std::borrow::Cow;
use std::cell::RefCell;
use std::rc::Rc;

struct TestData {
    a: i32,
    b: String,
}

struct TestData2 {
    port: String,
    host: String,
}

enum TestSection {
    Data(TestData),
    Data2(TestData2),
}

fn text_field(map: &serde_json::Map<String, Value>, key: &str) -> Result<String, KonfigError> {
    match map.get(key).and_then(|v| v.as_str()) {
        Some(s) => Ok(s.to_string()),
        None => Err(KonfigError::UnmarshalError(format!("missing field `{}`", key))),
    }
}

impl KonfigSection for TestSection {
    fn name(&self) -> Cow<'_, str> {
        match self {
            TestSection::Data(_) => Cow::Borrowed("TestData"),
            TestSection::Data2(_) => Cow::Borrowed("TestData2"),
        }
    }

    fn validate(&self) -> Result<(), KonfigError> {
        Ok(())
    }

    fn on_load(&self) -> Result<(), KonfigError> {
        Ok(())
    }

    fn to_bytes(&self, format: &FormatHandler) -> Result<Vec<u8>, KonfigError> {
        let mut map = serde_json::Map::new();
        match self {
            TestSection::Data(d) => {
                map.insert("a".to_string(), Value::from(d.a));
                map.insert("b".to_string(), Value::from(d.b.clone()));
            }
            TestSection::Data2(d) => {
                map.insert("port".to_string(), Value::from(d.port.clone()));
                map.insert("host".to_string(), Value::from(d.host.clone()));
            }
        }
        format.marshal(&Value::Object(map))
    }

    fn update_from_bytes(
        &mut self,
        bytes: &[u8],
        format: &FormatHandler,
    ) -> Result<(), KonfigError> {
        let tree = format.unmarshal(bytes)?;
        let map = match tree.as_object() {
            Some(map) => map,
            None => return Err(KonfigError::UnmarshalError("expected a mapping".to_string())),
        };
        match self {
            TestSection::Data(d) => {
                let a = match map.get("a").and_then(|v| v.as_i64()) {
                    Some(a) => a as i32,
                    None => {
                        return Err(KonfigError::UnmarshalError("missing field `a`".to_string()))
                    }
                };
                let b = text_field(map, "b")?;
                d.a = a;
                d.b = b;
            }
            TestSection::Data2(d) => {
                let port = text_field(map, "port")?;
                let host = text_field(map, "host")?;
                d.port = port;
                d.host = host;
            }
        }
        Ok(())
    }
}

/// A section that holds a mapping of fields, records every callback in a
/// shared log, and can be told to reject its state or to fail its load hook.
struct Record {
    name: String,
    fields: serde_json::Map<String, Value>,
    reject: Option<String>,
    hook_fails: Option<String>,
    log: Rc<RefCell<Vec<String>>>,
}

impl Record {
    fn new(name: &str, fields: Vec<(&str, Value)>) -> Record {
        Record::logged(name, fields, Rc::new(RefCell::new(Vec::new())))
    }

    fn logged(name: &str, fields: Vec<(&str, Value)>, log: Rc<RefCell<Vec<String>>>) -> Record {
        let mut map = serde_json::Map::new();
        for (key, value) in fields {
            map.insert(key.to_string(), value);
        }
        Record {
            name: name.to_string(),
            fields: map,
            reject: None,
            hook_fails: None,
            log,
        }
    }

    fn field(&self, key: &str) -> Value {
        self.fields.get(key).cloned().unwrap_or(Value::Null)
    }

    fn note(&self, what: &str) {
        self.log.borrow_mut().push(format!("{}:{}", self.name, what));
    }
}

impl KonfigSection for Record {
    fn name(&self) -> Cow<'_, str> {
        Cow::Borrowed(self.name.as_str())
    }

    fn validate(&self) -> Result<(), KonfigError> {
        self.note("validate");
        match &self.reject {
            Some(reason) => Err(KonfigError::ValidationError(reason.clone())),
            None => Ok(()),
        }
    }

    fn on_load(&self) -> Result<(), KonfigError> {
        self.note("on_load");
        match &self.hook_fails {
            Some(reason) => Err(KonfigError::OnLoadError(reason.clone())),
            None => Ok(()),
        }
    }

    fn to_bytes(&self, format: &FormatHandler) -> Result<Vec<u8>, KonfigError> {
        format.marshal(&Value::Object(self.fields.clone()))
    }

    fn update_from_bytes(
        &mut self,
        bytes: &[u8],
        format: &FormatHandler,
    ) -> Result<(), KonfigError> {
        self.note("update");
        match format.unmarshal(bytes)? {
            Value::Object(map) => {
                self.fields = map;
                Ok(())
            }
            _ => Err(KonfigError::UnmarshalError("expected a mapping".to_string())),
        }
    }
}

fn options(format: Format, use_callbacks: bool) -> KonfigOptions {
    KonfigOptions {
        format,
        auto_save: false,
        use_callbacks,
        config_path: "config".to_string(),
    }
}

fn server() -> Record {
    Record::new(
        "server",
        vec![("port", Value::from(8080)), ("host", Value::from("localhost"))],
    )
}

fn auth() -> Record {
    Record::new("auth", vec![("token", Value::from("abc"))])
}

fn blank(name: &str) -> Record {
    Record::new(name, vec![])
}

fn example_manager(format: Format) -> KonfigManager<Record> {
    let mut manager = KonfigManager::new(options(format, true));
    manager.register_section(server()).unwrap();
    manager.register_section(auth()).unwrap();
    manager
}

fn example_tree() -> Value {
    let mut server = serde_json::Map::new();
    server.insert("port".to_string(), Value::from(8080));
    server.insert("host".to_string(), Value::from("localhost"));
    let mut auth = serde_json::Map::new();
    auth.insert("token".to_string(), Value::from("abc"));
    let mut root = serde_json::Map::new();
    root.insert("server".to_string(), Value::Object(server));
    root.insert("auth".to_string(), Value::Object(auth));
    Value::Object(root)
}

fn log_of(log: &Rc<RefCell<Vec<String>>>) -> Vec<String> {
    log.borrow().clone()
}

#[test]
fn test_konfig() {
    let t = TestData {
        a: 1,
        b: "test".to_string(),
    };

    let t2 = TestData2 {
        port: "8080".to_string(),
        host: "localhost".to_string(),
    };

    let mut mngr = KonfigManager::new(KonfigOptions {
        format: Format::JSON,
        auto_save: false,
        use_callbacks: true,
        config_path: "test.json".to_string(),
    });

    mngr.register_section(TestSection::Data(t))
        .map_err(|err| println!("{}", err.to_string()))
        .unwrap();

    mngr.register_section(TestSection::Data2(t2))
        .map_err(|err| println!("{}", err.to_string()))
        .unwrap();

    let stored: Vec<u8> = Vec::new();
    mngr.load(&stored)
        .map_err(|err| println!("{}", err.to_string()))
        .unwrap();

    if let Some(TestSection::Data(t)) = mngr.get_mut("TestData") {
        t.a = t.a + 1;
    }

    let written = mngr
        .save()
        .map_err(|err| println!("{}", err.to_string()))
        .unwrap();
    assert_eq!(
        String::from_utf8(written).unwrap(),
        "{\"TestData\":{\"a\":2,\"b\":\"test\"},\"TestData2\":{\"host\":\"localhost\",\"port\":\"8080\"}}"
    );

    for (name, result) in mngr.validate_all() {
        println!("{}: {}", name, result.is_ok());
        assert!(result.is_ok());
    }
    match mngr.get("TestData") {
        Some(TestSection::Data(t)) => {
            println!("TestData: {}, {}", t.a, t.b);
            assert_eq!(t.a, 2);
            assert_eq!(t.b, "test");
        }
        _ => panic!("TestData is registered"),
    }
    match mngr.get("TestData2") {
        Some(TestSection::Data2(t2)) => {
            println!("TestData2: {}, {}", t2.port, t2.host);
            assert_eq!(t2.port, "8080");
            assert_eq!(t2.host, "localhost");
        }
        _ => panic!("TestData2 is registered"),
    }
}

#[test]
fn new_manager_is_empty_and_keeps_its_options() {
    let manager: KonfigManager<Record> = KonfigManager::new(KonfigOptions {
        format: Format::YAML,
        auto_save: true,
        use_callbacks: false,
        config_path: "settings.yaml".to_string(),
    });
    assert_eq!(manager.len(), 0);
    assert_eq!(manager.config_path(), "settings.yaml");
    assert!(manager.auto_save());
    assert!(!manager.use_callbacks());
    assert!(manager.get("server").is_none());
    assert!(manager.validate_all().is_empty());
    let mut tree = serde_json::Map::new();
    tree.insert("k".to_string(), Value::from(1));
    assert_eq!(
        manager.format_handler().marshal(&Value::Object(tree)).unwrap(),
        b"k: 1\n".to_vec()
    );
}

#[test]
fn save_of_the_example_under_json() {
    let manager = example_manager(Format::JSON);
    let written = manager.save().unwrap();
    assert_eq!(
        String::from_utf8(written.clone()).unwrap(),
        "{\"auth\":{\"token\":\"abc\"},\"server\":{\"host\":\"localhost\",\"port\":8080}}"
    );
    let decoded: Value = serde_json::from_slice(&written).unwrap();
    assert_eq!(decoded, example_tree());
}

#[test]
fn load_overrides_unsaved_edits() {
    let mut manager = example_manager(Format::JSON);
    let stored = manager.save().unwrap();
    match manager.get_mut("server") {
        Some(section) => {
            section
                .fields
                .insert("port".to_string(), Value::from(9090));
        }
        None => panic!("server is registered"),
    }
    assert_eq!(manager.get("server").unwrap().field("port"), Value::from(9090));
    manager.load(&stored).unwrap();
    assert_eq!(manager.get("server").unwrap().field("port"), Value::from(8080));
    assert_eq!(
        manager.get("server").unwrap().field("host"),
        Value::from("localhost")
    );
    assert_eq!(manager.get("auth").unwrap().field("token"), Value::from("abc"));
}

fn round_trip(format: Format) {
    let manager = example_manager(format);
    let stored = manager.save().unwrap();
    assert!(!stored.is_empty());

    let mut fresh = KonfigManager::new(options(format, true));
    fresh.register_section(blank("auth")).unwrap();
    fresh.register_section(blank("server")).unwrap();
    fresh.load(&stored).unwrap();

    assert_eq!(fresh.get("server").unwrap().fields, server().fields);
    assert_eq!(fresh.get("auth").unwrap().fields, auth().fields);
    assert_eq!(fresh.get("server").unwrap().field("port"), Value::from(8080));
}

#[test]
fn round_trip_under_json() {
    round_trip(Format::JSON);
}

#[test]
fn round_trip_under_yaml() {
    round_trip(Format::YAML);
}

#[test]
fn round_trip_under_toml() {
    round_trip(Format::TOML);
}

#[test]
fn round_trip_of_nested_values() {
    let mut limits = serde_json::Map::new();
    limits.insert("depth".to_string(), Value::from(3));
    limits.insert("strict".to_string(), Value::from(true));
    let fields = vec![
        ("limits", Value::Object(limits)),
        (
            "hosts",
            Value::Array(vec![Value::from("a.example"), Value::from("b.example")]),
        ),
        ("retries", Value::from(-2)),
        ("label", Value::from("caf\u{e9} \"quoted\"")),
    ];
    for format in [Format::JSON, Format::YAML, Format::TOML] {
        let mut manager = KonfigManager::new(options(format, false));
        manager
            .register_section(Record::new("net", fields.clone()))
            .unwrap();
        let stored = manager.save().unwrap();
        let mut fresh = KonfigManager::new(options(format, false));
        fresh.register_section(blank("net")).unwrap();
        fresh.load(&stored).unwrap();
        assert_eq!(
            fresh.get("net").unwrap().fields,
            Record::new("net", fields.clone()).fields
        );
    }
}

#[test]
fn saving_twice_gives_equal_content() {
    for format in [Format::JSON, Format::YAML, Format::TOML] {
        let manager = example_manager(format);
        let first = manager.save().unwrap();
        let second = manager.save().unwrap();
        assert_eq!(first, second);
        let handler = format.create_handler();
        assert_eq!(
            handler.unmarshal(&first).unwrap(),
            handler.unmarshal(&second).unwrap()
        );
        assert_eq!(handler.unmarshal(&first).unwrap(), example_tree());
    }
}

#[test]
fn unregistered_names_are_passed_over() {
    let mut manager = KonfigManager::new(options(Format::JSON, true));
    manager.register_section(server()).unwrap();
    let stored =
        b"{\"cache\":{\"size\":5},\"server\":{\"host\":\"example.org\",\"port\":1},\"zeta\":7}";
    manager.load(stored).unwrap();
    assert_eq!(manager.len(), 1);
    assert_eq!(manager.get("server").unwrap().field("port"), Value::from(1));
    assert_eq!(
        manager.get("server").unwrap().field("host"),
        Value::from("example.org")
    );
    assert!(manager.get("cache").is_none());

    let only_unknown = b"{\"cache\":{\"size\":5},\"zeta\":[1,2]}";
    manager.load(only_unknown).unwrap();
    assert_eq!(manager.get("server").unwrap().field("port"), Value::from(1));
}

#[test]
fn missing_key_leaves_the_section_alone() {
    let log = Rc::new(RefCell::new(Vec::new()));
    let mut manager = KonfigManager::new(options(Format::JSON, true));
    manager
        .register_section(Record::logged(
            "server",
            vec![("port", Value::from(8080))],
            log.clone(),
        ))
        .unwrap();
    manager
        .register_section(Record::logged(
            "auth",
            vec![("token", Value::from("abc"))],
            log.clone(),
        ))
        .unwrap();
    manager.load(b"{\"auth\":{\"token\":\"xyz\"}}").unwrap();
    assert_eq!(manager.get("server").unwrap().field("port"), Value::from(8080));
    assert_eq!(manager.get("auth").unwrap().field("token"), Value::from("xyz"));
    assert_eq!(
        log_of(&log),
        vec![
            "auth:update".to_string(),
            "auth:validate".to_string(),
            "auth:on_load".to_string()
        ]
    );
}

#[test]
fn empty_document_changes_nothing() {
    let log = Rc::new(RefCell::new(Vec::new()));
    for format in [Format::JSON, Format::YAML, Format::TOML] {
        let mut manager = KonfigManager::new(options(format, true));
        manager
            .register_section(Record::logged(
                "server",
                vec![("port", Value::from(8080))],
                log.clone(),
            ))
            .unwrap();
        assert_eq!(manager.load(&[]), Ok(()));
        assert_eq!(manager.get("server").unwrap().field("port"), Value::from(8080));
        assert_eq!(manager.len(), 1);
    }
    assert!(log_of(&log).is_empty());
}

#[test]
fn duplicate_registration_is_refused() {
    let mut manager = KonfigManager::new(options(Format::JSON, true));
    assert_eq!(manager.register_section(server()), Ok(()));
    let second = Record::new("server", vec![("port", Value::from(1))]);
    assert_eq!(
        manager.register_section(second),
        Err(KonfigError::RegistrationError(
            "Failed to register server, section already registered".to_string()
        ))
    );
    assert_eq!(manager.len(), 1);
    assert_eq!(manager.get("server").unwrap().field("port"), Value::from(8080));
    assert_eq!(manager.register_section(auth()), Ok(()));
    assert_eq!(manager.len(), 2);
    let names: Vec<String> = manager
        .validate_all()
        .into_iter()
        .map(|(name, _)| name)
        .collect();
    assert_eq!(names, vec!["server".to_string(), "auth".to_string()]);
}

#[test]
fn validate_runs_before_on_load() {
    let log = Rc::new(RefCell::new(Vec::new()));
    let mut manager = KonfigManager::new(options(Format::JSON, true));
    manager
        .register_section(Record::logged("server", vec![], log.clone()))
        .unwrap();
    manager.load(b"{\"server\":{\"port\":1}}").unwrap();
    assert_eq!(
        log_of(&log),
        vec![
            "server:update".to_string(),
            "server:validate".to_string(),
            "server:on_load".to_string()
        ]
    );
}

#[test]
fn failing_validate_suppresses_on_load() {
    let log = Rc::new(RefCell::new(Vec::new()));
    let mut section = Record::logged("server", vec![], log.clone());
    section.reject = Some("port out of range".to_string());
    section.hook_fails = Some("never seen".to_string());
    let mut manager = KonfigManager::new(options(Format::JSON, true));
    manager.register_section(section).unwrap();
    assert_eq!(
        manager.load(b"{\"server\":{\"port\":1}}"),
        Err(KonfigError::ValidationError("port out of range".to_string()))
    );
    assert_eq!(
        log_of(&log),
        vec!["server:update".to_string(), "server:validate".to_string()]
    );
    assert_eq!(manager.get("server").unwrap().field("port"), Value::from(1));
}

#[test]
fn failing_on_load_is_reported() {
    let mut section = blank("server");
    section.hook_fails = Some("cannot derive".to_string());
    let mut manager = KonfigManager::new(options(Format::JSON, true));
    manager.register_section(section).unwrap();
    assert_eq!(
        manager.load(b"{\"server\":{\"port\":1}}"),
        Err(KonfigError::OnLoadError("cannot derive".to_string()))
    );
    assert_eq!(manager.get("server").unwrap().field("port"), Value::from(1));
}

#[test]
fn callbacks_do_not_run_when_disabled() {
    let log = Rc::new(RefCell::new(Vec::new()));
    let mut section = Record::logged("server", vec![], log.clone());
    section.reject = Some("rejected".to_string());
    section.hook_fails = Some("failed".to_string());
    let mut manager = KonfigManager::new(options(Format::JSON, false));
    manager.register_section(section).unwrap();
    assert_eq!(manager.load(b"{\"server\":{\"port\":1}}"), Ok(()));
    assert_eq!(log_of(&log), vec!["server:update".to_string()]);
}

#[test]
fn first_failure_ends_the_loading() {
    let log = Rc::new(RefCell::new(Vec::new()));
    let mut manager = KonfigManager::new(options(Format::JSON, true));
    let mut middle = Record::logged("b", vec![("v", Value::from(0))], log.clone());
    middle.reject = Some("b is wrong".to_string());
    manager
        .register_section(Record::logged("c", vec![("v", Value::from(0))], log.clone()))
        .unwrap();
    manager.register_section(middle).unwrap();
    manager
        .register_section(Record::logged("a", vec![("v", Value::from(0))], log.clone()))
        .unwrap();
    let outcome = manager.load(b"{\"c\":{\"v\":3},\"a\":{\"v\":1},\"b\":{\"v\":2}}");
    assert_eq!(
        outcome,
        Err(KonfigError::ValidationError("b is wrong".to_string()))
    );
    assert_eq!(manager.get("a").unwrap().field("v"), Value::from(1));
    assert_eq!(manager.get("b").unwrap().field("v"), Value::from(2));
    assert_eq!(manager.get("c").unwrap().field("v"), Value::from(0));
    assert_eq!(
        log_of(&log),
        vec![
            "a:update".to_string(),
            "a:validate".to_string(),
            "a:on_load".to_string(),
            "b:update".to_string(),
            "b:validate".to_string()
        ]
    );
}

#[test]
fn failing_update_is_reported_and_ends_the_loading() {
    let mut manager = KonfigManager::new(options(Format::JSON, true));
    manager.register_section(server()).unwrap();
    manager.register_section(auth()).unwrap();
    assert_eq!(
        manager.load(b"{\"auth\":5,\"server\":{\"port\":1}}"),
        Err(KonfigError::UnmarshalError("expected a mapping".to_string()))
    );
    assert_eq!(manager.get("auth").unwrap().field("token"), Value::from("abc"));
    assert_eq!(manager.get("server").unwrap().field("port"), Value::from(8080));
}

#[test]
fn root_that_is_no_mapping_is_a_load_error() {
    let mut manager = example_manager(Format::JSON);
    for stored in [&b"[1,2,3]"[..], &b"42"[..], &b"\"server\""[..], &b"null"[..]] {
        assert_eq!(
            manager.load(stored),
            Err(KonfigError::LoadError(
                "Config root must be an object".to_string()
            ))
        );
    }
    assert_eq!(manager.get("server").unwrap().field("port"), Value::from(8080));
    let mut yaml = example_manager(Format::YAML);
    assert_eq!(
        yaml.load(b"- 1\n- 2\n"),
        Err(KonfigError::LoadError(
            "Config root must be an object".to_string()
        ))
    );
}

#[test]
fn malformed_document_is_an_unmarshal_error() {
    let mut manager = example_manager(Format::JSON);
    match manager.load(b"{\"server\":") {
        Err(KonfigError::UnmarshalError(reason)) => {
            assert_eq!(reason, "EOF while parsing a value at line 1 column 10")
        }
        other => panic!("unexpected outcome {:?}", other),
    }
    assert_eq!(manager.get("server").unwrap().field("port"), Value::from(8080));

    let mut toml = example_manager(Format::TOML);
    assert!(matches!(
        toml.load(&[0xff, 0xfe, 0x00]),
        Err(KonfigError::UnmarshalError(_))
    ));
    assert!(matches!(
        toml.load(b"server = "),
        Err(KonfigError::UnmarshalError(_))
    ));
    let mut yaml = example_manager(Format::YAML);
    assert!(matches!(
        yaml.load(b"server: [1, 2"),
        Err(KonfigError::UnmarshalError(_))
    ));
}

#[test]
fn value_that_the_format_cannot_hold_is_a_marshal_error() {
    let mut manager = KonfigManager::new(options(Format::TOML, true));
    manager.register_section(server()).unwrap();
    let mut tree = serde_json::Map::new();
    tree.insert("server".to_string(), Value::from(5));
    let outcome = manager.load_tree(&Value::Object(tree));
    assert!(matches!(outcome, Err(KonfigError::MarshalError(_))));
    assert_eq!(manager.get("server").unwrap().field("port"), Value::from(8080));

    let mut unknown = serde_json::Map::new();
    unknown.insert("cache".to_string(), Value::from(5));
    assert_eq!(manager.load_tree(&Value::Object(unknown)), Ok(()));
}

#[test]
fn save_reports_the_first_failing_section() {
    struct Broken;
    impl KonfigSection for Broken {
        fn name(&self) -> Cow<'_, str> {
            Cow::Owned("broken".to_string())
        }
        fn validate(&self) -> Result<(), KonfigError> {
            Err(KonfigError::ValidationError("always".to_string()))
        }
        fn on_load(&self) -> Result<(), KonfigError> {
            Ok(())
        }
        fn to_bytes(&self, _format: &FormatHandler) -> Result<Vec<u8>, KonfigError> {
            Err(KonfigError::Other("no bytes".to_string()))
        }
        fn update_from_bytes(
            &mut self,
            _bytes: &[u8],
            _format: &FormatHandler,
        ) -> Result<(), KonfigError> {
            Ok(())
        }
    }
    let mut manager = KonfigManager::new(options(Format::JSON, true));
    manager.register_section(Broken).unwrap();
    assert_eq!(manager.save(), Err(KonfigError::Other("no bytes".to_string())));
    assert_eq!(
        manager.validate_all(),
        vec![(
            "broken".to_string(),
            Err(KonfigError::ValidationError("always".to_string()))
        )]
    );
}

#[test]
fn save_decodes_what_each_section_gives() {
    struct Raw(Vec<u8>);
    impl KonfigSection for Raw {
        fn name(&self) -> Cow<'_, str> {
            Cow::Borrowed("raw")
        }
        fn validate(&self) -> Result<(), KonfigError> {
            Ok(())
        }
        fn on_load(&self) -> Result<(), KonfigError> {
            Ok(())
        }
        fn to_bytes(&self, _format: &FormatHandler) -> Result<Vec<u8>, KonfigError> {
            Ok(self.0.clone())
        }
        fn update_from_bytes(
            &mut self,
            bytes: &[u8],
            _format: &FormatHandler,
        ) -> Result<(), KonfigError> {
            self.0 = bytes.to_vec();
            Ok(())
        }
    }
    let mut manager = KonfigManager::new(options(Format::JSON, false));
    manager
        .register_section(Raw(b" { \"b\" : 1 , \"a\" : [ ] } ".to_vec()))
        .unwrap();
    assert_eq!(manager.save().unwrap(), b"{\"raw\":{\"a\":[],\"b\":1}}".to_vec());

    let mut broken = KonfigManager::new(options(Format::JSON, false));
    broken.register_section(Raw(b"{".to_vec())).unwrap();
    assert!(matches!(
        broken.save(),
        Err(KonfigError::UnmarshalError(_))
    ));

    manager.load(b"{\"raw\":{\"k\":[1,2]}}").unwrap();
    assert_eq!(manager.get("raw").unwrap().0, b"{\"k\":[1,2]}".to_vec());
}

#[test]
fn validate_all_reports_every_section() {
    let log = Rc::new(RefCell::new(Vec::new()));
    let mut manager = KonfigManager::new(options(Format::JSON, true));
    let mut first = Record::logged("first", vec![("v", Value::from(1))], log.clone());
    first.reject = Some("first is wrong".to_string());
    let mut third = Record::logged("third", vec![], log.clone());
    third.reject = Some("third is wrong".to_string());
    manager.register_section(first).unwrap();
    manager
        .register_section(Record::logged("second", vec![], log.clone()))
        .unwrap();
    manager.register_section(third).unwrap();
    assert_eq!(
        manager.validate_all(),
        vec![
            (
                "first".to_string(),
                Err(KonfigError::ValidationError("first is wrong".to_string()))
            ),
            ("second".to_string(), Ok(())),
            (
                "third".to_string(),
                Err(KonfigError::ValidationError("third is wrong".to_string()))
            ),
        ]
    );
    assert_eq!(
        log_of(&log),
        vec![
            "first:validate".to_string(),
            "second:validate".to_string(),
            "third:validate".to_string()
        ]
    );
    assert_eq!(manager.get("first").unwrap().field("v"), Value::from(1));
}

#[test]
fn registration_after_load_is_not_filled_in() {
    let mut manager = KonfigManager::new(options(Format::JSON, true));
    manager.register_section(blank("server")).unwrap();
    let stored = b"{\"auth\":{\"token\":\"abc\"},\"server\":{\"port\":8080}}";
    manager.load(stored).unwrap();
    manager.register_section(blank("auth")).unwrap();
    assert_eq!(manager.get("auth").unwrap().field("token"), Value::Null);
    assert_eq!(manager.get("server").unwrap().field("port"), Value::from(8080));
    manager.load(stored).unwrap();
    assert_eq!(manager.get("auth").unwrap().field("token"), Value::from("abc"));
}

#[test]
fn load_bytes_reaches_one_section() {
    let mut manager = example_manager(Format::JSON);
    assert_eq!(manager.load_bytes("server", b"{\"port\":7}"), Ok(()));
    assert_eq!(manager.get("server").unwrap().field("port"), Value::from(7));
    assert_eq!(manager.get("server").unwrap().field("host"), Value::Null);
    assert_eq!(manager.get("auth").unwrap().field("token"), Value::from("abc"));
    assert_eq!(manager.load_bytes("cache", b"not even json"), Ok(()));
    assert!(matches!(
        manager.load_bytes("auth", b"not even json"),
        Err(KonfigError::UnmarshalError(_))
    ));
}

#[test]
fn load_members_follows_the_given_order() {
    let log = Rc::new(RefCell::new(Vec::new()));
    let mut manager = KonfigManager::new(options(Format::YAML, false));
    manager
        .register_section(Record::logged("a", vec![], log.clone()))
        .unwrap();
    manager
        .register_section(Record::logged("b", vec![], log.clone()))
        .unwrap();
    let mut one = serde_json::Map::new();
    one.insert("v".to_string(), Value::from(1));
    let mut two = serde_json::Map::new();
    two.insert("v".to_string(), Value::from(2));
    let entries = vec![
        ("b".to_string(), Value::Object(two)),
        ("unknown".to_string(), Value::Null),
        ("a".to_string(), Value::Object(one)),
    ];
    assert_eq!(manager.load_members(&entries), Ok(()));
    assert_eq!(
        log_of(&log),
        vec!["b:update".to_string(), "a:update".to_string()]
    );
    assert_eq!(manager.get("a").unwrap().field("v"), Value::from(1));
    assert_eq!(manager.get("b").unwrap().field("v"), Value::from(2));
    assert_eq!(
        manager.load_member("a", &Value::Array(vec![])),
        Err(KonfigError::UnmarshalError("expected a mapping".to_string()))
    );
}

#[test]
fn formats_agree_on_what_they_restore() {
    let mut restored = Vec::new();
    for format in [Format::JSON, Format::YAML, Format::TOML] {
        let stored = example_manager(format).save().unwrap();
        let mut fresh = KonfigManager::new(options(format, true));
        fresh.register_section(blank("server")).unwrap();
        fresh.register_section(blank("auth")).unwrap();
        fresh.load(&stored).unwrap();
        restored.push((
            fresh.get("server").unwrap().fields.clone(),
            fresh.get("auth").unwrap().fields.clone(),
        ));
    }
    assert_eq!(restored[0], restored[1]);
    assert_eq!(restored[1], restored[2]);
    assert_eq!(restored[0].0, server().fields);
    assert_eq!(restored[0].1, auth().fields);
}

#[test]
fn saved_documents_in_each_format() {
    assert_eq!(
        String::from_utf8(example_manager(Format::YAML).save().unwrap()).unwrap(),
        "auth:\n  token: abc\nserver:\n  host: localhost\n  port: 8080\n"
    );
    assert_eq!(
        String::from_utf8(example_manager(Format::TOML).save().unwrap()).unwrap(),
        "[auth]\ntoken = \"abc\"\n\n[server]\nhost = \"localhost\"\nport = 8080\n"
    );
    let empty: KonfigManager<Record> = KonfigManager::new(options(Format::JSON, true));
    assert_eq!(empty.save().unwrap(), b"{}".to_vec());
}
