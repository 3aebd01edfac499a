use logger_core::LazyRollingFileAppender;
use logger_core::Level;
use logger_core::ReloadableSink;
use logger_core::Rendering;
use logger_core::Rotation;
use logger_core::SeverityFilter;
use logger_core::WriterAction;

#[test]
fn new_appender_keeps_its_description_and_is_unused() {
    let appender = LazyRollingFileAppender::new(Rotation::Hourly, "glide-logs", "out.log");
    assert_eq!(appender.rotation(), Rotation::Hourly);
    assert_eq!(appender.directory(), "glide-logs");
    assert_eq!(appender.filename_prefix(), "out.log");
    assert!(!appender.is_materialized());
}

#[test]
fn first_writer_request_creates_and_later_ones_reuse() {
    let mut appender = LazyRollingFileAppender::new(Rotation::Daily, "logs", "app");
    assert_eq!(appender.make_writer(), WriterAction::Create);
    assert!(appender.is_materialized());
    assert_eq!(appender.make_writer(), WriterAction::Reuse);
    assert_eq!(appender.make_writer(), WriterAction::Reuse);
    assert!(appender.is_materialized());
    assert_eq!(appender.rotation(), Rotation::Daily);
    assert_eq!(appender.directory(), "logs");
    assert_eq!(appender.filename_prefix(), "app");
}

#[test]
fn sink_that_is_off_never_touches_its_file() {
    let appender = LazyRollingFileAppender::new(Rotation::Hourly, "glide-logs", "out.log");
    let mut sink = ReloadableSink::new(Some(appender));
    assert_eq!(sink.offer(Level::Error), Rendering::Dropped);
    assert_eq!(sink.offer(Level::Trace), Rendering::Dropped);
    assert!(!sink.writer().unwrap().is_materialized());
}

#[test]
fn file_is_created_by_the_first_admitted_event_only() {
    let appender = LazyRollingFileAppender::new(Rotation::Hourly, "glide-logs", "out.log");
    let mut sink = ReloadableSink::new(Some(appender));
    sink.reconfigure(SeverityFilter::Warn, None);
    assert_eq!(sink.offer(Level::Info), Rendering::Dropped);
    assert!(!sink.writer().unwrap().is_materialized());
    assert_eq!(sink.offer(Level::Warn), Rendering::Written(WriterAction::Create));
    assert!(sink.writer().unwrap().is_materialized());
    assert_eq!(sink.offer(Level::Error), Rendering::Written(WriterAction::Reuse));
    assert!(Rendering::Written(WriterAction::Create).reached_output());
}

#[test]
fn reconfigure_keeps_the_writer_unless_a_new_one_comes() {
    let appender = LazyRollingFileAppender::new(Rotation::Hourly, "glide-logs", "first.log");
    let mut sink = ReloadableSink::new(Some(appender));
    sink.reconfigure(SeverityFilter::Error, None);
    assert_eq!(sink.offer(Level::Error), Rendering::Written(WriterAction::Create));
    sink.reconfigure(SeverityFilter::Off, None);
    assert_eq!(sink.filter(), SeverityFilter::Off);
    assert_eq!(sink.writer().unwrap().filename_prefix(), "first.log");
    assert!(sink.writer().unwrap().is_materialized());
    let next = LazyRollingFileAppender::new(Rotation::Hourly, "glide-logs", "second.log");
    sink.reconfigure(SeverityFilter::Info, Some(next));
    assert_eq!(sink.filter(), SeverityFilter::Info);
    assert_eq!(sink.writer().unwrap().filename_prefix(), "second.log");
    assert!(!sink.writer().unwrap().is_materialized());
}

#[test]
fn console_sink_has_no_writer() {
    let sink = ReloadableSink::new(None);
    assert!(sink.writer().is_none());
}
