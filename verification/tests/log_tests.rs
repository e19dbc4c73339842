use cfengine_promise::log::{max_level, set_max_level, Level, LevelFilter, LogGate};

#[test]
fn messages_below_the_threshold_are_dropped() {
    let mut gate = LogGate::new();
    // A fresh gate passes only critical messages.
    gate.emit(Level::Error, "quiet");
    assert!(gate.lines.is_empty());
    gate.emit(Level::Critical, "loud");
    assert_eq!(gate.lines, vec!["log_critical=loud".to_string()]);

    set_max_level(&mut gate, LevelFilter::Info);
    assert_eq!(max_level(&gate), LevelFilter::Info);
    gate.emit(Level::Verbose, "details");
    gate.emit(Level::Info, "a change");
    gate.emit(Level::Warning, "look at this");
    assert_eq!(
        gate.lines,
        vec![
            "log_critical=loud".to_string(),
            "log_info=a change".to_string(),
            "log_warning=look at this".to_string(),
        ]
    );
}

#[test]
fn severities_are_ranked_most_severe_first() {
    assert!(Level::Critical.passes(&LevelFilter::Critical));
    assert!(!Level::Error.passes(&LevelFilter::Critical));
    assert!(Level::Error.passes(&LevelFilter::Error));
    assert!(Level::Critical.passes(&LevelFilter::Debug));
    assert!(Level::Debug.passes(&LevelFilter::Debug));
    assert!(!Level::Debug.passes(&LevelFilter::Verbose));
}

#[test]
fn severity_words_parse_and_print() {
    assert_eq!(LevelFilter::parse("critical"), Some(LevelFilter::Critical));
    assert_eq!(LevelFilter::parse("error"), Some(LevelFilter::Error));
    assert_eq!(LevelFilter::parse("warning"), Some(LevelFilter::Warning));
    assert_eq!(LevelFilter::parse("notice"), Some(LevelFilter::Notice));
    assert_eq!(LevelFilter::parse("info"), Some(LevelFilter::Info));
    assert_eq!(LevelFilter::parse("verbose"), Some(LevelFilter::Verbose));
    assert_eq!(LevelFilter::parse("debug"), Some(LevelFilter::Debug));
    assert_eq!(LevelFilter::parse("chatty"), None);
    assert_eq!(LevelFilter::parse(""), None);
    assert_eq!(LevelFilter::Info.as_str(), "info");
    assert_eq!(Level::Notice.as_str(), "notice");
}
