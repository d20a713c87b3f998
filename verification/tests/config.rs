use occasion::calendar::{Month, Weekday};
use occasion::config::{
    Config, DayOf, MultipleBehavior, RunCondition, TimeRange, TimeRangeMessage,
    CONFIG_FILE_NAME,
};
use occasion::errors::{ConfigError, IoFailure, IoKind};
use occasion::store::{config_location, Attempt, Document, ImportGraph};

fn calendar_rule() -> TimeRangeMessage {
    TimeRangeMessage {
        message: Some("hai :3".to_string()),
        time: Some(TimeRange {
            day_of: Some(DayOf::Month(vec![1, 3, 5, 7, 9])),
            week: None,
            month: Some(vec![Month::January, Month::June, Month::July]),
            year: Some(vec![2016, 2017, 2018, 2022, 2024, 2005, 2030]),
        }),
        ..Default::default()
    }
}

fn predicate_rule(message: &str) -> TimeRangeMessage {
    TimeRangeMessage {
        message: Some(message.to_string()),
        condition: Some(RunCondition {
            predicate: Some("true".to_string()),
            ..Default::default()
        }),
        ..Default::default()
    }
}

fn missing() -> ConfigError {
    ConfigError::Io(IoFailure {
        kind: IoKind::NotFound,
        detail: "No such file or directory (os error 2)".to_string(),
    })
}

/// A graph of the given documents, in which `links` lists who imports whom.
fn graph_of(documents: Vec<Document>, links: &[(usize, usize)]) -> ImportGraph {
    let mut graph = ImportGraph::new();
    for document in documents {
        graph.add(document);
    }
    for (from, to) in links {
        assert!(graph.link(*from, *to));
    }
    graph
}

#[test]
fn deserialize_unreadable() {
    // no written config
    let graph = graph_of(vec![Document::Failed(missing())], &[]);
    let decoded_config = Config::load(&graph, 0);
    println!("{decoded_config:?}");
    assert!(matches!(decoded_config, Err(ConfigError::Io(_))));
}

#[test]
fn deserialize_from_broken_file() {
    let graph = graph_of(
        vec![Document::Failed(ConfigError::Deserialize(
            "trailing characters at line 1 column 2".to_string(),
        ))],
        &[],
    );
    let decoded_config = Config::load(&graph, 0);
    assert!(matches!(decoded_config, Err(ConfigError::Deserialize(_))));
    assert!(matches!(
        Config::load_or_default(&graph, 0),
        Attempt::Finished(Err(ConfigError::Deserialize(_)))
    ));
}

#[test]
fn read_default() {
    let absent = graph_of(vec![Document::Failed(missing())], &[]);
    assert!(matches!(Config::load_or_default(&absent, 0), Attempt::CreateDefault));

    let created = graph_of(vec![Document::Loaded(Config::default())], &[]);
    let config = Config::load(&created, 0);
    assert!(config.is_ok());
    let config = config.unwrap();
    assert!(config.dates.is_empty());
}

#[test]
fn read_existing() {
    let test_config = Config {
        dates: vec![calendar_rule()],
        multiple_behavior: Some(MultipleBehavior::default()),
        ..Default::default()
    };
    let graph = graph_of(vec![Document::Loaded(test_config.clone())], &[]);

    let read = Config::load_or_default(&graph, 0);
    let Attempt::Finished(read) = read else {
        panic!("an existing document is not created anew");
    };
    assert!(read.is_ok());
    let read = read.unwrap();
    assert_eq!(read, test_config);
}

#[test]
fn import() {
    let root = Config {
        imports: vec!["import_1.json".to_string()],
        dates: vec![calendar_rule()],
        ..Default::default()
    };
    let import_1 = Config {
        dates: vec![predicate_rule("hewwo")],
        week_start_day: Some(Weekday::Wed),
        multiple_behavior: Some(MultipleBehavior::Random),
        ..Default::default()
    };
    let graph = graph_of(
        vec![Document::Loaded(root.clone()), Document::Loaded(import_1.clone())],
        &[(0, 1)],
    );

    let mut root_merge = root.clone();
    root_merge.merge(import_1.clone());

    let read = Config::load(&graph, 0).unwrap();
    assert_eq!(read, root_merge);
    assert_eq!(read.week_start_day, Some(Weekday::Wed));
    assert_eq!(read.multiple_behavior, Some(MultipleBehavior::Random));
    assert_eq!(read.dates.len(), 2);
}

#[test]
fn import_multiple() {
    let root = Config {
        imports: vec!["import_1.json".to_string(), "import_2.json".to_string()],
        dates: vec![calendar_rule()],
        ..Default::default()
    };
    let import_1 = Config {
        dates: vec![predicate_rule("hewwo")],
        week_start_day: Some(Weekday::Wed),
        multiple_behavior: Some(MultipleBehavior::Random),
        ..Default::default()
    };
    let import_2 = Config {
        dates: vec![predicate_rule("trans rights !!")],
        ..Default::default()
    };
    let graph = graph_of(
        vec![
            Document::Loaded(root.clone()),
            Document::Loaded(import_1.clone()),
            Document::Loaded(import_2.clone()),
        ],
        &[(0, 1), (0, 2)],
    );

    let mut root_merge = root.clone();
    root_merge.merge(import_1.clone());
    root_merge.merge(import_2.clone());

    let read = Config::load(&graph, 0).unwrap();
    assert_eq!(read, root_merge);
}

#[test]
fn import_depth() {
    let root = Config {
        imports: vec!["import_1.json".to_string()],
        dates: vec![calendar_rule()],
        ..Default::default()
    };
    let import_1 = Config {
        imports: vec!["import_2.json".to_string()],
        dates: vec![predicate_rule("hewwo")],
        ..Default::default()
    };
    let import_2 = Config {
        imports: vec!["import_3.json".to_string()],
        dates: vec![predicate_rule("trans rights !!")],
        ..Default::default()
    };
    let import_3 = Config {
        dates: vec![predicate_rule("this will not be added")],
        week_start_day: Some(Weekday::Wed),
        ..Default::default()
    };
    let graph = graph_of(
        vec![
            Document::Loaded(root.clone()),
            Document::Loaded(import_1.clone()),
            Document::Loaded(import_2.clone()),
            Document::Loaded(import_3.clone()),
        ],
        &[(0, 1), (1, 2), (2, 3)],
    );

    let mut root_merge = root.clone();
    root_merge.merge(import_1.clone());
    root_merge.merge(import_2.clone());

    let read = Config::load(&graph, 0).unwrap();
    assert_eq!(read, root_merge);
    assert_eq!(read.week_start_day, None);

    assert!(matches!(Config::load_from(&graph, 3, 3), Err(ConfigError::MaxRecursionDepth)));
    assert_eq!(Config::load_from(&graph, 3, 2).unwrap(), import_3);
}

#[test]
fn import_circular() {
    let root = Config {
        imports: vec!["import_1.json".to_string()],
        dates: vec![calendar_rule()],
        ..Default::default()
    };
    let import_1 = Config {
        imports: vec!["occasions.json".to_string()],
        dates: vec![predicate_rule("hewwo")],
        ..Default::default()
    };
    let graph = graph_of(
        vec![Document::Loaded(root.clone()), Document::Loaded(import_1.clone())],
        &[(0, 1), (1, 0)],
    );

    let mut root_merge = root.clone();
    root_merge.merge(import_1.clone());
    root_merge.merge(root.clone());

    let read = Config::load(&graph, 0).unwrap();
    assert_eq!(read, root_merge);
}

#[test]
fn import_that_fails_is_skipped() {
    let root = Config {
        imports: vec!["gone.json".to_string(), "import_2.json".to_string()],
        dates: vec![calendar_rule()],
        ..Default::default()
    };
    let import_2 = Config {
        dates: vec![predicate_rule("trans rights !!")],
        multiple_behavior: Some(MultipleBehavior::Last),
        ..Default::default()
    };
    let graph = graph_of(
        vec![
            Document::Loaded(root.clone()),
            Document::Failed(missing()),
            Document::Loaded(import_2.clone()),
        ],
        &[(0, 1), (0, 2)],
    );

    let mut root_merge = root.clone();
    root_merge.merge(import_2);
    assert_eq!(Config::load(&graph, 0).unwrap(), root_merge);
    assert!(matches!(Config::load_or_default(&graph, 0), Attempt::Finished(Ok(_))));
}

#[test]
fn importer_wins_and_earlier_import_wins() {
    let root = Config {
        imports: vec!["a.json".to_string(), "b.json".to_string()],
        dates: vec![calendar_rule()],
        multiple_behavior: Some(MultipleBehavior::First),
        ..Default::default()
    };
    let a = Config {
        dates: vec![predicate_rule("a")],
        multiple_behavior: Some(MultipleBehavior::Last),
        week_start_day: Some(Weekday::Mon),
        ..Default::default()
    };
    let b = Config {
        dates: vec![predicate_rule("b")],
        multiple_behavior: Some(MultipleBehavior::Random),
        week_start_day: Some(Weekday::Fri),
        ..Default::default()
    };
    let graph = graph_of(
        vec![Document::Loaded(root), Document::Loaded(a), Document::Loaded(b)],
        &[(0, 1), (0, 2)],
    );
    let read = Config::load(&graph, 0).unwrap();
    assert_eq!(read.multiple_behavior, Some(MultipleBehavior::First));
    assert_eq!(read.week_start_day, Some(Weekday::Mon));
    let messages: Vec<_> = read.dates.iter().map(|rule| rule.message.clone().unwrap()).collect();
    assert_eq!(messages, ["hai :3", "a", "b"]);
    assert_eq!(read.imports, ["a.json", "b.json"]);
}

#[test]
fn merge_fills_open_options_only() {
    let mut own = Config {
        dates: vec![predicate_rule("own")],
        week_start_day: Some(Weekday::Tue),
        ..Default::default()
    };
    own.merge(Config {
        dates: vec![predicate_rule("other")],
        multiple_behavior: Some(MultipleBehavior::All { seperator: ", ".to_string() }),
        week_start_day: Some(Weekday::Sat),
        imports: vec!["ignored.json".to_string()],
    });
    assert_eq!(own.dates.len(), 2);
    assert_eq!(own.week_start_day, Some(Weekday::Tue));
    assert_eq!(
        own.multiple_behavior,
        Some(MultipleBehavior::All { seperator: ", ".to_string() })
    );
    assert!(own.imports.is_empty());
}

#[test]
fn duplicate_keeps_every_field() {
    let config = Config {
        dates: vec![calendar_rule(), predicate_rule("hewwo")],
        multiple_behavior: Some(MultipleBehavior::All { seperator: "\n".to_string() }),
        week_start_day: Some(Weekday::Thu),
        imports: vec!["x.json".to_string()],
    };
    assert_eq!(config.duplicate(), config);
}

#[test]
fn graph_rejects_links_to_nowhere() {
    let mut graph = ImportGraph::new();
    assert_eq!(graph.len(), 0);
    let node = graph.add(Document::Loaded(Config::default()));
    assert_eq!(node, 0);
    assert!(!graph.link(0, 1));
    assert!(!graph.link(1, 0));
    assert!(graph.link(0, 0));
    assert_eq!(graph.len(), 1);
    assert!(matches!(Config::load(&graph, 7), Err(ConfigError::Unknown)));
}

#[test]
fn location_prefers_the_override() {
    assert_eq!(
        config_location(Some("/tmp/mine.json".to_string()), Some("/home/me/.config".to_string()))
            .unwrap(),
        "/tmp/mine.json"
    );
    assert_eq!(
        config_location(Some("/tmp/mine.json".to_string()), None).unwrap(),
        "/tmp/mine.json"
    );
    assert_eq!(
        config_location(None, Some("/home/me/.config".to_string())).unwrap(),
        format!("/home/me/.config/{CONFIG_FILE_NAME}")
    );
    assert_eq!(
        config_location(None, None),
        Err(ConfigError::UndeterminableConfigLocation)
    );
}

#[test]
fn error_messages() {
    assert_eq!(ConfigError::Unknown.message(), "this error should never fire");
    assert_eq!(
        ConfigError::NotAFile.message(),
        "the path in $OCCASION_CONFIG or one of it's imports is not a file path"
    );
    assert_eq!(ConfigError::Malformed.message(), "malformed config file");
    assert_eq!(
        ConfigError::UndeterminableConfigLocation.message(),
        "cannot determine config dir, pass $OCCASION_CONFIG directly"
    );
    assert_eq!(ConfigError::MaxRecursionDepth.message(), "max import depth reached (3)");
    assert_eq!(missing().message(), "i/o error: No such file or directory (os error 2)");
    assert_eq!(
        ConfigError::Deserialize("expected value".to_string()).message(),
        "cannot parse: expected value"
    );
    assert!(missing().is_missing_file());
    assert!(!ConfigError::Io(IoFailure { kind: IoKind::Other, detail: String::new() })
        .is_missing_file());
    assert!(!ConfigError::NotAFile.is_missing_file());
    assert_eq!(missing().duplicate(), missing());
}

#[test]
fn failure_of_the_root_is_handed_on() {
    for error in [
        ConfigError::Unknown,
        ConfigError::NotAFile,
        ConfigError::Malformed,
        ConfigError::Io(IoFailure { kind: IoKind::Other, detail: "denied".to_string() }),
        ConfigError::Deserialize("unknown field `date`".to_string()),
    ] {
        let graph = graph_of(vec![Document::Failed(error.clone())], &[]);
        assert_eq!(Config::load(&graph, 0), Err(error.clone()));
        let Attempt::Finished(outcome) = Config::load_or_default(&graph, 0) else {
            panic!("only a missing document is created anew");
        };
        assert_eq!(outcome, Err(error));
    }
}

#[test]
fn defaults() {
    assert_eq!(
        MultipleBehavior::default(),
        MultipleBehavior::All { seperator: String::new() }
    );
    let config = Config::default();
    assert!(config.dates.is_empty());
    assert!(config.imports.is_empty());
    assert_eq!(config.multiple_behavior, None);
    assert_eq!(config.week_start_day, None);
}
