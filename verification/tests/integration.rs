use chrono::Datelike;
use occasion::calendar::{Moment, Month, Weekday};
use occasion::config::{
    Config, CustomCommand, DayOf, MultipleBehavior, RunCondition, TimeRange, TimeRangeMessage,
};
use occasion::errors::{ConfigError, IoFailure, IoKind};
use occasion::output_of;
use occasion::resolve::{Request, Resolution, Stage};
use occasion::store::{Attempt, Document, ImportGraph};
use occasion::time::{Captured, Invocation, Platform};


/// The day that the local clock shows.
fn clock() -> Moment {
    let now = chrono::Local::now();
    Moment::from_ymd(now.year(), now.month(), now.day()).unwrap()
}

/// Replaces each `$NAME` of the environment by its value.
fn expand(text: &str, environment: &[(String, String)]) -> String {
    let mut names: Vec<&(String, String)> = environment.iter().collect();
    names.sort_by_key(|(name, _)| std::cmp::Reverse(name.len()));
    let mut out = text.to_string();
    for (name, value) in names {
        out = out.replace(&format!("${name}"), value);
    }
    out
}

/// Stands in for the operating system: answers `echo`, `true` and `false`
/// as a shell would.
fn run_output(invocation: &Invocation) -> Option<Captured> {
    if invocation.program != "sh" {
        return None;
    }
    let script = invocation.arguments.last()?.as_str();
    let (success, stdout) = if let Some(rest) = script.strip_prefix("echo ") {
        (true, expand(rest.trim_matches('"'), &invocation.environment) + "\n")
    } else if script == "true" {
        (true, String::new())
    } else {
        (false, String::new())
    };
    Some(Captured { success, stdout: stdout.into_bytes() })
}

/// Loads the document as the only one of its graph, creating the default
/// document where it is missing.
fn load_or_default(saved: Option<Config>) -> Result<Config, ConfigError> {
    let document = match saved {
        Some(config) => Document::Loaded(config),
        None => Document::Failed(ConfigError::Io(IoFailure {
            kind: IoKind::NotFound,
            detail: "No such file or directory (os error 2)".to_string(),
        })),
    };
    let mut graph = ImportGraph::new();
    let root = graph.add(document);
    match Config::load_or_default(&graph, root) {
        Attempt::Finished(result) => result,
        Attempt::CreateDefault => {
            let mut graph = ImportGraph::new();
            let root = graph.add(Document::Loaded(Config::default()));
            Config::load(&graph, root)
        }
    }
}

/// Resolves the configuration now, running what it asks for.
fn resolve(config: &Config) -> String {
    let mut resolution = Resolution::start(config.clone(), clock(), Platform::Posix);
    loop {
        match resolution.request() {
            Request::Status(invocation) => {
                resolution.supply_status(run_output(&invocation).map(|c| c.success))
            }
            Request::Output(invocation) => resolution.supply_output(run_output(&invocation)),
            Request::Finished => return resolution.finish().unwrap(),
        }
    }
}

fn today(message: &str, now: &Moment) -> TimeRangeMessage {
    TimeRangeMessage {
        message: Some(message.to_string()),
        time: Some(TimeRange {
            day_of: Some(DayOf::Month(vec![now.day as u8])),
            week: None,
            month: Some(vec![Month::from_number(now.month).unwrap()]),
            year: Some(vec![now.year]),
        }),
        ..Default::default()
    }
}

#[test]
fn integration_no_config() {
    let empty = load_or_default(None).unwrap();
    let res = resolve(&empty);
    assert!(res.is_empty())
}

#[test]
fn integration_with_config_multiple() {
    let now = clock();
    let test_config = Config {
        dates: vec![today("hai", &now), today("hewwo :3", &now)],
        multiple_behavior: Some(MultipleBehavior::default()),
        ..Default::default()
    };
    let config = load_or_default(Some(test_config)).unwrap();

    let res = resolve(&config);
    assert_eq!(res, "haihewwo :3");
}

#[test]
fn integration_with_config_multiple_default_behavior() {
    let now = clock();
    let test_config = Config {
        dates: vec![today("hai", &now), today("hewwo :3", &now)],
        ..Default::default()
    };
    let config = load_or_default(Some(test_config)).unwrap();

    let res = resolve(&config);
    assert_eq!(res, "haihewwo :3");
}

#[test]
fn integration_with_config_single() {
    let now = clock();
    let test_config = Config {
        dates: vec![today("hai", &now)],
        multiple_behavior: Some(MultipleBehavior::default()),
        ..Default::default()
    };
    let config = load_or_default(Some(test_config)).unwrap();

    let res = resolve(&config);
    assert_eq!(res, "hai");
}

#[test]
fn integration_with_config_emoji() {
    let now = clock();
    let test_config = Config {
        dates: vec![today("🐈", &now)],
        multiple_behavior: Some(MultipleBehavior::default()),
        ..Default::default()
    };
    let config = load_or_default(Some(test_config)).unwrap();

    let res = resolve(&config);
    assert_eq!(res, "🐈");
}

#[test]
fn integration_with_matching_and_nonmatching() {
    let now = clock();
    let mut tomorrow = today("hewwo :3", &now);
    tomorrow.time.as_mut().unwrap().day_of = Some(DayOf::Month(vec![now.day as u8 + 1]));
    let test_config = Config {
        dates: vec![today("hai", &now), tomorrow],
        multiple_behavior: Some(MultipleBehavior::default()),
        ..Default::default()
    };
    let config = load_or_default(Some(test_config)).unwrap();

    let res = resolve(&config);
    assert_eq!(res, "hai");
}

#[test]
fn integration_with_all_custom_seperator() {
    let now = clock();
    let test_config = Config {
        dates: vec![
            today("hai", &now),
            today("hewwo :3", &now),
            today("yipee !! \n this is on a new line", &now),
        ],
        multiple_behavior: Some(MultipleBehavior::All { seperator: "\n".to_string() }),
        ..Default::default()
    };
    let config = load_or_default(Some(test_config)).unwrap();

    let res = resolve(&config);
    assert_eq!(res, "hai\nhewwo :3\nyipee !! \n this is on a new line");
}

#[test]
fn integration_with_first() {
    let now = clock();
    let test_config = Config {
        dates: vec![
            today("hai", &now),
            today("hewwo :3", &now),
            today("yipee !! \n this is on a new line", &now),
        ],
        multiple_behavior: Some(MultipleBehavior::First),
        ..Default::default()
    };
    let config = load_or_default(Some(test_config)).unwrap();

    let res = resolve(&config);
    assert_eq!(res, "hai");
}

#[test]
fn integration_with_last() {
    let now = clock();
    let test_config = Config {
        dates: vec![
            today("hai", &now),
            today("hewwo :3", &now),
            today("yipee !! \n this is on a new line", &now),
        ],
        multiple_behavior: Some(MultipleBehavior::Last),
        ..Default::default()
    };
    let config = load_or_default(Some(test_config)).unwrap();

    let res = resolve(&config);
    assert_eq!(res, "yipee !! \n this is on a new line");
}

#[test]
fn integration_with_random() {
    let now = clock();
    let test_config = Config {
        dates: vec![today("hai", &now), today("hewwo :3", &now), today("mraow", &now)],
        multiple_behavior: Some(MultipleBehavior::Random),
        ..Default::default()
    };
    let config = load_or_default(Some(test_config)).unwrap();

    for _ in 0..10 {
        let res = resolve(&config);
        assert!(matches!(res.as_str(), "hai" | "hewwo :3" | "mraow"));
    }
}

fn greeting(now: &Moment) -> TimeRangeMessage {
    TimeRangeMessage {
        command: Some(CustomCommand {
            run: "echo \"Hello! today is $DAY_OF_WEEK and it is the $DAY_IN_WEEK day of the week\""
                .to_string(),
            ..Default::default()
        }),
        ..today("", now)
    }
}

#[test]
fn integration_with_shell_commands_with_vars() {
    let now = clock();
    let mut rule = greeting(&now);
    rule.message = None;
    let test_config = Config {
        dates: vec![rule],
        multiple_behavior: Some(MultipleBehavior::Random),
        ..Default::default()
    };
    let config = load_or_default(Some(test_config)).unwrap();

    let res = resolve(&config);
    assert_eq!(
        res,
        format!(
            "Hello! today is {} and it is the {} day of the week",
            now.weekday.name(),
            now.weekday.days_since(Weekday::Sun)
        )
    );
}

#[test]
fn integration_with_shell_commands_with_vars_and_custom_week_start() {
    let now = clock();
    let mut rule = greeting(&now);
    rule.message = None;
    let test_config = Config {
        dates: vec![rule],
        multiple_behavior: Some(MultipleBehavior::Random),
        week_start_day: Some(Weekday::Mon),
        ..Default::default()
    };
    let config = load_or_default(Some(test_config)).unwrap();

    let res = resolve(&config);
    assert_eq!(
        res,
        format!(
            "Hello! today is {} and it is the {} day of the week",
            now.weekday.name(),
            now.weekday.days_since(Weekday::Mon)
        )
    );
}

#[test]
fn random_over_nothing_is_empty() {
    let config = Config {
        dates: vec![],
        multiple_behavior: Some(MultipleBehavior::Random),
        ..Default::default()
    };
    assert_eq!(resolve(&config), "");
    assert_eq!(output_of(&config, &vec![]), "");
}

#[test]
fn random_over_one_is_that_one() {
    let config = Config {
        dates: vec![],
        multiple_behavior: Some(MultipleBehavior::Random),
        ..Default::default()
    };
    for _ in 0..20 {
        assert_eq!(output_of(&config, &vec!["only".to_string()]), "only");
    }
}

#[test]
fn message_command_runs_only_for_a_rule_that_applies() {
    let now = Moment::from_ymd(2025, 6, 3).unwrap();
    let sleeping = TimeRangeMessage {
        message: Some("never".to_string()),
        command: Some(CustomCommand { run: "echo never".to_string(), ..Default::default() }),
        time: Some(TimeRange {
            day_of: Some(DayOf::Month(vec![4])),
            ..Default::default()
        }),
        ..Default::default()
    };
    let probing = TimeRangeMessage {
        message: Some("fallback".to_string()),
        command: Some(CustomCommand { run: "echo printed".to_string(), ..Default::default() }),
        condition: Some(RunCondition {
            shell: Some(CustomCommand { run: "true".to_string(), ..Default::default() }),
            ..Default::default()
        }),
        ..Default::default()
    };
    let config = Config {
        dates: vec![sleeping, probing],
        multiple_behavior: Some(MultipleBehavior::All { seperator: "|".to_string() }),
        ..Default::default()
    };
    let mut resolution = Resolution::start(config, now, Platform::Posix);

    assert_eq!(resolution.stage(), Stage::Status);
    assert_eq!(resolution.finish(), None);
    let Request::Status(probe) = resolution.request() else {
        panic!("the condition of the second rule is asked for first");
    };
    assert_eq!(probe.program, "sh");
    assert_eq!(probe.arguments, ["-c", "true"]);

    resolution.supply_output(None);
    assert_eq!(resolution.stage(), Stage::Status);

    resolution.supply_status(Some(true));
    assert_eq!(resolution.stage(), Stage::Output);
    let Request::Output(printer) = resolution.request() else {
        panic!("the message command of the second rule is asked for next");
    };
    assert_eq!(printer.arguments, ["-c", "echo printed"]);

    resolution.supply_output(Some(Captured { success: true, stdout: b"printed\n".to_vec() }));
    assert_eq!(resolution.stage(), Stage::Nothing);
    assert_eq!(resolution.request(), Request::Finished);
    assert_eq!(resolution.finish(), Some("printed".to_string()));
}

#[test]
fn failed_probe_drops_the_rule() {
    let now = Moment::from_ymd(2025, 6, 3).unwrap();
    let rule = TimeRangeMessage {
        message: Some("hidden".to_string()),
        condition: Some(RunCondition {
            shell: Some(CustomCommand { run: "false".to_string(), ..Default::default() }),
            ..Default::default()
        }),
        ..Default::default()
    };
    let config = Config { dates: vec![rule.clone(), rule], ..Default::default() };

    let mut resolution = Resolution::start(config.clone(), now, Platform::Posix);
    resolution.supply_status(Some(false));
    resolution.supply_status(None);
    assert_eq!(resolution.finish(), Some(String::new()));

    let mut resolution = Resolution::start(config, now, Platform::Posix);
    resolution.supply_status(Some(true));
    resolution.supply_status(Some(false));
    assert_eq!(resolution.finish(), Some("hidden".to_string()));
}
