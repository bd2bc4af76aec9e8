use lightning_js::error::{Error, Status};
use lightning_js::logging::{
    after_notify, format_log_line, level_to_rank, level_to_str, parse_level, LogAction, LogFilter,
    LogLevel, LogMessage,
};

const LEVELS: [LogLevel; 6] = [
    LogLevel::Gossip,
    LogLevel::Trace,
    LogLevel::Debug,
    LogLevel::Info,
    LogLevel::Warn,
    LogLevel::Error,
];

fn message(level: LogLevel) -> LogMessage {
    LogMessage {
        level,
        module: "ldk_node::wallet".to_string(),
        line: 120,
        message: "synced".to_string(),
    }
}

#[test]
fn level_names_read_back() {
    for level in LEVELS {
        assert_eq!(parse_level(level_to_str(level)), Some(level));
        assert_eq!(parse_level(&level_to_str(level).to_lowercase()), Some(level));
    }
}

#[test]
fn levels_have_the_names_and_ranks_of_the_node() {
    let outside = [
        ldk_node::logger::LogLevel::Gossip,
        ldk_node::logger::LogLevel::Trace,
        ldk_node::logger::LogLevel::Debug,
        ldk_node::logger::LogLevel::Info,
        ldk_node::logger::LogLevel::Warn,
        ldk_node::logger::LogLevel::Error,
    ];
    for (level, node_level) in LEVELS.into_iter().zip(outside) {
        assert_eq!(level_to_rank(level), node_level as u8);
        assert_eq!(level_to_str(level), format!("{node_level:?}").to_uppercase());
    }
}

#[test]
fn warn_has_two_names() {
    assert_eq!(parse_level("warn"), Some(LogLevel::Warn));
    assert_eq!(parse_level("Warning"), Some(LogLevel::Warn));
    assert_eq!(level_to_str(LogLevel::Warn), "WARN");
}

#[test]
fn other_names_are_no_level() {
    for name in ["", "INFO ", "warns", "fatal", "\u{131}nfo"] {
        assert_eq!(parse_level(name), None, "{name:?}");
    }
}

#[test]
fn messages_from_info_on_are_passed_on_at_first() {
    let filter = LogFilter::new();
    assert_eq!(filter.dispatch(message(LogLevel::Debug), true), LogAction::Ignore);
    assert_eq!(filter.dispatch(message(LogLevel::Debug), false), LogAction::Ignore);
    assert_eq!(
        filter.dispatch(message(LogLevel::Info), true),
        LogAction::Notify(message(LogLevel::Info))
    );
    assert_eq!(
        filter.dispatch(message(LogLevel::Error), false),
        LogAction::Print("[ldk-node ERROR ldk_node::wallet:120] synced".to_string())
    );
}

#[test]
fn the_minimum_level_can_be_set() {
    let mut filter = LogFilter::new();
    assert_eq!(filter.set_min_level(Some("gossip".to_string())), Ok(()));
    assert_ne!(filter.dispatch(message(LogLevel::Gossip), true), LogAction::Ignore);
    assert_eq!(filter.set_min_level(Some("ERROR".to_string())), Ok(()));
    assert_eq!(filter.dispatch(message(LogLevel::Warn), true), LogAction::Ignore);
    assert_eq!(filter.set_min_level(None), Ok(()));
    assert_eq!(filter.dispatch(message(LogLevel::Warn), true), LogAction::Ignore);
}

#[test]
fn an_unknown_level_is_refused_and_changes_nothing() {
    let mut filter = LogFilter::new();
    filter.set_min_level(Some("error".to_string())).unwrap();
    let error = filter.set_min_level(Some("loud".to_string())).unwrap_err();
    assert_eq!(error, Error::UnknownLogLevel("loud".to_string()));
    assert_eq!(error.status(), Status::InvalidArg);
    assert_eq!(error.reason(), "Unknown log level 'loud'");
    assert_eq!(filter.dispatch(message(LogLevel::Warn), true), LogAction::Ignore);
    assert_ne!(filter.dispatch(message(LogLevel::Error), true), LogAction::Ignore);
}

#[test]
fn a_message_that_the_listener_did_not_take_is_printed() {
    let message = message(LogLevel::Warn);
    assert_eq!(after_notify(&message, true), None);
    assert_eq!(after_notify(&message, false), Some(format_log_line(&message)));
    assert_eq!(format_log_line(&message), "[ldk-node WARN ldk_node::wallet:120] synced");
}
