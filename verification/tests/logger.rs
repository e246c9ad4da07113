use gyrolog::logger::{
    ceiling_of, format_line, level_label, level_within, severity_of, AlreadyInitialized, Level,
    LevelFilter, LoggerCore,
};

#[test]
fn fresh_logger_is_disabled_and_unbound() {
    let logger: LoggerCore<u32> = LoggerCore::new();
    assert!(!logger.enabled());
    assert_eq!(logger.device, None);
    assert!(!logger.accepts(Level::Error));
}

#[test]
fn first_binding_succeeds_and_enables_every_level() {
    let mut logger: LoggerCore<u32> = LoggerCore::new();
    assert_eq!(logger.init(17), Ok(()));
    assert!(logger.enabled());
    assert_eq!(*logger.bound_device(), Some(17));
    assert_eq!(logger.threshold, LevelFilter::Trace);
    assert!(logger.accepts(Level::Error));
    assert!(logger.accepts(Level::Warn));
    assert!(logger.accepts(Level::Info));
    assert!(logger.accepts(Level::Debug));
    assert!(logger.accepts(Level::Trace));
}

#[test]
fn second_binding_fails_and_keeps_the_first_device() {
    let mut logger: LoggerCore<u32> = LoggerCore::new();
    assert_eq!(logger.init(17), Ok(()));
    assert_eq!(logger.init(99), Err(AlreadyInitialized));
    assert_eq!(*logger.bound_device(), Some(17));
    assert!(logger.enabled());
    logger.flush();
    assert_eq!(*logger.bound_device(), Some(17));
}

#[test]
fn severity_ranks_order_the_levels() {
    assert!(severity_of(Level::Error) < severity_of(Level::Warn));
    assert!(severity_of(Level::Warn) < severity_of(Level::Info));
    assert!(severity_of(Level::Info) < severity_of(Level::Debug));
    assert!(severity_of(Level::Debug) < severity_of(Level::Trace));
    assert_eq!(ceiling_of(LevelFilter::Off), 0);
    assert!(level_within(LevelFilter::Trace, Level::Trace));
    assert!(level_within(LevelFilter::Error, Level::Error));
    assert!(!level_within(LevelFilter::Error, Level::Warn));
    assert!(!level_within(LevelFilter::Off, Level::Error));
}

#[test]
fn log_line_has_the_exact_bytes() {
    let line = format_line(&b"t".to_vec(), Level::Info, &b"m".to_vec());
    assert_eq!(line, b"[t] <INFO> m\n".to_vec());
}

#[test]
fn log_line_carries_target_level_and_message() {
    let line = format_line(
        &b"gyro".to_vec(),
        Level::Error,
        &b"x: 1750, y: 17, z: -280".to_vec(),
    );
    assert_eq!(line, b"[gyro] <ERROR> x: 1750, y: 17, z: -280\n".to_vec());
    let line = format_line(&Vec::new(), Level::Warn, &Vec::new());
    assert_eq!(line, b"[] <WARN> \n".to_vec());
}

#[test]
fn level_labels_match_their_names() {
    assert_eq!(level_label(Level::Error), b"ERROR".to_vec());
    assert_eq!(level_label(Level::Warn), b"WARN".to_vec());
    assert_eq!(level_label(Level::Info), b"INFO".to_vec());
    assert_eq!(level_label(Level::Debug), b"DEBUG".to_vec());
    assert_eq!(level_label(Level::Trace), b"TRACE".to_vec());
}
