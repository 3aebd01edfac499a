use logger_core::format_line;
use logger_core::init;
use logger_core::log;
use logger_core::log_debug;
use logger_core::log_error;
use logger_core::log_info;
use logger_core::log_trace;
use logger_core::log_warn;
use logger_core::requested_level;
use logger_core::InitiateOnce;
use logger_core::Level;
use logger_core::Rendering;
use logger_core::SeverityFilter;
use logger_core::WriterAction;

fn console_filter(once: &InitiateOnce) -> SeverityFilter {
    once.get().unwrap().console().filter()
}

fn file_filter(once: &InitiateOnce) -> SeverityFilter {
    once.get().unwrap().file().filter()
}

fn file_name(once: &InitiateOnce) -> String {
    once.get().unwrap().file().writer().unwrap().filename_prefix().to_string()
}

fn file_touched(once: &InitiateOnce) -> bool {
    once.get().unwrap().file().writer().unwrap().is_materialized()
}

#[test]
fn new_slot_is_empty() {
    let once = InitiateOnce::new(None);
    assert!(once.get().is_none());
}

#[test]
fn init_returns_the_requested_level() {
    let mut once = InitiateOnce::new(None);
    assert_eq!(init(&mut once, Some(Level::Debug), None), Level::Debug);
    assert_eq!(init(&mut once, Some(Level::Off), None), Level::Off);
    assert_eq!(init(&mut once, Some(Level::Trace), Some("t.log")), Level::Trace);
}

#[test]
fn init_defaults_to_warn() {
    let mut once = InitiateOnce::new(None);
    assert_eq!(init(&mut once, None, None), Level::Warn);
    assert_eq!(console_filter(&once), SeverityFilter::Warn);
    assert_eq!(requested_level(None), Level::Warn);
    assert_eq!(requested_level(Some(Level::Error)), Level::Error);
}

#[test]
fn first_init_without_file_prepares_the_default_file() {
    let mut once = InitiateOnce::new(None);
    init(&mut once, Some(Level::Info), None);
    assert_eq!(console_filter(&once), SeverityFilter::Info);
    assert_eq!(file_filter(&once), SeverityFilter::Off);
    assert_eq!(file_name(&once), "output.log");
    assert_eq!(once.get().unwrap().file().writer().unwrap().directory(), "glide-logs");
    assert!(!file_touched(&once));
    assert!(once.get().unwrap().console().writer().is_none());
}

#[test]
fn info_console_drops_debug_and_renders_info() {
    let mut once = InitiateOnce::new(None);
    assert_eq!(init(&mut once, Some(Level::Info), None), Level::Info);
    let dropped = log(&mut once, Level::Debug, "ctx", "msg").unwrap();
    assert_eq!(dropped.console, Rendering::Dropped);
    assert_eq!(dropped.file, Rendering::Dropped);
    let rendered = log(&mut once, Level::Info, "ctx", "msg").unwrap();
    assert_eq!(rendered.level, Level::Info);
    assert_eq!(rendered.line, "ctx - msg");
    assert_eq!(rendered.console, Rendering::Rendered);
    assert_eq!(rendered.file, Rendering::Dropped);
}

#[test]
fn error_file_sink_leaves_warn_without_output() {
    let mut once = InitiateOnce::new(None);
    assert_eq!(init(&mut once, Some(Level::Error), Some("out.log")), Level::Error);
    assert_eq!(file_filter(&once), SeverityFilter::Error);
    assert_eq!(console_filter(&once), SeverityFilter::Off);
    assert_eq!(file_name(&once), "out.log");
    let warn = log(&mut once, Level::Warn, "x", "y").unwrap();
    assert_eq!(warn.console, Rendering::Dropped);
    assert_eq!(warn.file, Rendering::Dropped);
    assert!(!warn.console.reached_output());
    assert!(!warn.file.reached_output());
    assert!(!file_touched(&once));
}

#[test]
fn file_is_created_by_the_first_event_the_file_sink_admits() {
    let mut once = InitiateOnce::new(None);
    init(&mut once, Some(Level::Error), Some("out.log"));
    assert!(!file_touched(&once));
    log_warn(&mut once, "x", "dropped");
    assert!(!file_touched(&once));
    let first = log_error(&mut once, "x", "written");
    assert_eq!(first.console, Rendering::Dropped);
    assert_eq!(first.file, Rendering::Written(WriterAction::Create));
    assert!(file_touched(&once));
    let second = log_error(&mut once, "x", "written again");
    assert_eq!(second.file, Rendering::Written(WriterAction::Reuse));
}

#[test]
fn init_without_file_after_file_turns_the_file_off() {
    let mut once = InitiateOnce::new(None);
    init(&mut once, Some(Level::Debug), Some("first.log"));
    log_debug(&mut once, "id", "to the file");
    assert!(file_touched(&once));
    assert_eq!(init(&mut once, Some(Level::Info), None), Level::Info);
    assert_eq!(console_filter(&once), SeverityFilter::Info);
    assert_eq!(file_filter(&once), SeverityFilter::Off);
    assert_eq!(file_name(&once), "first.log");
    assert!(file_touched(&once));
    let emission = log_info(&mut once, "id", "to the console");
    assert_eq!(emission.console, Rendering::Rendered);
    assert_eq!(emission.file, Rendering::Dropped);
}

#[test]
fn init_with_file_after_console_turns_the_console_off() {
    let mut once = InitiateOnce::new(None);
    init(&mut once, Some(Level::Trace), None);
    assert_eq!(init(&mut once, Some(Level::Warn), Some("second.log")), Level::Warn);
    assert_eq!(console_filter(&once), SeverityFilter::Off);
    assert_eq!(file_filter(&once), SeverityFilter::Warn);
    assert_eq!(file_name(&once), "second.log");
    assert!(!file_touched(&once));
    let emission = log_warn(&mut once, "id", "to the file");
    assert_eq!(emission.console, Rendering::Dropped);
    assert_eq!(emission.file, Rendering::Written(WriterAction::Create));
}

#[test]
fn init_with_another_file_name_replaces_the_writer() {
    let mut once = InitiateOnce::new(None);
    init(&mut once, Some(Level::Info), Some("a.log"));
    log_info(&mut once, "id", "first file");
    assert!(file_touched(&once));
    init(&mut once, Some(Level::Info), Some("b.log"));
    assert_eq!(file_name(&once), "b.log");
    assert!(!file_touched(&once));
}

#[test]
fn at_most_one_output_is_on_after_each_init() {
    let levels = [Level::Error, Level::Warn, Level::Info, Level::Debug, Level::Trace, Level::Off];
    let mut once = InitiateOnce::new(None);
    for (i, level) in levels.iter().enumerate() {
        let name = if i % 2 == 0 { Some("f.log") } else { None };
        init(&mut once, Some(*level), name);
        assert!(
            console_filter(&once) == SeverityFilter::Off || file_filter(&once) == SeverityFilter::Off
        );
    }
}

#[test]
fn log_before_init_initializes_at_warn_once() {
    let mut once = InitiateOnce::new(None);
    let first = log(&mut once, Level::Warn, "id", "first").unwrap();
    assert!(once.get().is_some());
    assert_eq!(console_filter(&once), SeverityFilter::Warn);
    assert_eq!(file_filter(&once), SeverityFilter::Off);
    assert_eq!(file_name(&once), "output.log");
    assert_eq!(first.console, Rendering::Rendered);
    let info = log(&mut once, Level::Info, "id", "second").unwrap();
    assert_eq!(info.console, Rendering::Dropped);
    assert_eq!(console_filter(&once), SeverityFilter::Warn);
}

#[test]
fn log_after_init_does_not_reset_the_level() {
    let mut once = InitiateOnce::new(None);
    init(&mut once, Some(Level::Trace), None);
    let first = log_trace(&mut once, "id", "one");
    let second = log_trace(&mut once, "id", "two");
    assert_eq!(first.console, Rendering::Rendered);
    assert_eq!(second.console, Rendering::Rendered);
    assert_eq!(console_filter(&once), SeverityFilter::Trace);
}

#[test]
fn log_at_off_does_nothing() {
    let mut once = InitiateOnce::new(None);
    assert!(log(&mut once, Level::Off, "id", "nothing").is_none());
    assert!(once.get().is_none());
    init(&mut once, Some(Level::Trace), Some("f.log"));
    assert!(log(&mut once, Level::Off, "id", "nothing").is_none());
    assert!(!file_touched(&once));
}

#[test]
fn log_dispatches_to_the_level_of_the_call() {
    let mut once = InitiateOnce::new(None);
    init(&mut once, Some(Level::Trace), None);
    assert_eq!(log(&mut once, Level::Error, "a", "b").unwrap().level, Level::Error);
    assert_eq!(log(&mut once, Level::Warn, "a", "b").unwrap().level, Level::Warn);
    assert_eq!(log(&mut once, Level::Info, "a", "b").unwrap().level, Level::Info);
    assert_eq!(log(&mut once, Level::Debug, "a", "b").unwrap().level, Level::Debug);
    assert_eq!(log(&mut once, Level::Trace, "a", "b").unwrap().level, Level::Trace);
    assert_eq!(log_error(&mut once, "a", "b").level, Level::Error);
    assert_eq!(log_warn(&mut once, "a", "b").level, Level::Warn);
    assert_eq!(log_info(&mut once, "a", "b").level, Level::Info);
    assert_eq!(log_debug(&mut once, "a", "b").level, Level::Debug);
    assert_eq!(log_trace(&mut once, "a", "b").level, Level::Trace);
}

#[test]
fn init_at_off_silences_the_console() {
    let mut once = InitiateOnce::new(None);
    assert_eq!(init(&mut once, Some(Level::Off), None), Level::Off);
    let emission = log_error(&mut once, "id", "nobody listens");
    assert_eq!(emission.console, Rendering::Dropped);
    assert_eq!(emission.file, Rendering::Dropped);
}

#[test]
fn format_line_joins_identifier_and_message() {
    assert_eq!(format_line("ctx", "msg"), "ctx - msg");
    assert_eq!(format_line("", ""), " - ");
    assert_eq!(format_line("task 7", "a - b"), "task 7 - a - b");
}
