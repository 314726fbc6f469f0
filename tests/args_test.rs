use zap::args::{process_h_args, TimeSource, ZapCli};

fn cli(access_time: bool, modification_time: bool) -> ZapCli {
    ZapCli {
        help: None,
        filenames: vec!["test.txt".to_string()],
        template: None,
        context: None,
        open: false,
        access_time,
        modification_time,
        no_create: false,
        create_intermediate_dirs: false,
        date: None,
        timestamp: None,
        reference: None,
        adjust: None,
        symlink_only: false,
    }
}

#[test]
fn test_should_update_times_default_behavior() {
    // When neither -a nor -m is specified, both should be updated
    let cli = ZapCli {
        help: None,
        filenames: vec!["test.txt".to_string()],
        template: None,
        context: None,
        open: false,
        access_time: false,
        modification_time: false,
        no_create: false,
        create_intermediate_dirs: false,
        date: None,
        timestamp: None,
        reference: None,
        adjust: None,
        symlink_only: false,
    };

    let (update_access, update_modification) = cli.should_update_times();
    assert!(update_access, "Should update access time when no flags specified");
    assert!(update_modification, "Should update modification time when no flags specified");
}

#[test]
fn test_should_update_times_access_only() {
    let cli = ZapCli {
        help: None,
        filenames: vec!["test.txt".to_string()],
        template: None,
        context: None,
        open: false,
        access_time: true,
        modification_time: false,
        no_create: false,
        create_intermediate_dirs: false,
        date: None,
        timestamp: None,
        reference: None,
        adjust: None,
        symlink_only: false,
    };

    let (update_access, update_modification) = cli.should_update_times();
    assert!(update_access, "Should update access time when -a specified");
    assert!(!update_modification, "Should NOT update modification time when only -a specified");
}

#[test]
fn test_should_update_times_modification_only() {
    let cli = ZapCli {
        help: None,
        filenames: vec!["test.txt".to_string()],
        template: None,
        context: None,
        open: false,
        access_time: false,
        modification_time: true,
        no_create: false,
        create_intermediate_dirs: false,
        date: None,
        timestamp: None,
        reference: None,
        adjust: None,
        symlink_only: false,
    };

    let (update_access, update_modification) = cli.should_update_times();
    assert!(!update_access, "Should NOT update access time when only -m specified");
    assert!(update_modification, "Should update modification time when -m specified");
}

#[test]
fn test_should_update_times_both_flags() {
    let cli = ZapCli {
        help: None,
        filenames: vec!["test.txt".to_string()],
        template: None,
        context: None,
        open: false,
        access_time: true,
        modification_time: true,
        no_create: false,
        create_intermediate_dirs: false,
        date: None,
        timestamp: None,
        reference: None,
        adjust: None,
        symlink_only: false,
    };

    let (update_access, update_modification) = cli.should_update_times();
    assert!(update_access, "Should update access time when both -a and -m specified");
    assert!(update_modification, "Should update modification time when both -a and -m specified");
}

#[test]
fn symlink_mode_implies_no_create() {
    let mut c = cli(false, false);
    c.symlink_only = true;
    c.ensure_no_create_if_symlink();
    assert!(c.no_create);

    let mut plain = cli(false, false);
    plain.ensure_no_create_if_symlink();
    assert!(!plain.no_create);
}

#[test]
fn date_takes_precedence_over_other_sources() {
    let mut c = cli(false, false);
    c.date = Some("2023-01-01T00:00:00Z".to_string());
    c.timestamp = Some("202301010000".to_string());
    c.reference = Some("ref.txt".to_string());
    assert!(matches!(c.time_source(), TimeSource::Date("2023-01-01T00:00:00Z")));

    c.date = None;
    assert!(matches!(c.time_source(), TimeSource::Timestamp("202301010000")));

    c.timestamp = None;
    assert!(matches!(c.time_source(), TimeSource::Reference("ref.txt")));

    c.reference = None;
    assert!(matches!(c.time_source(), TimeSource::Now));
}

#[test]
fn planner_carries_the_options() {
    let mut c = cli(true, false);
    c.adjust = Some("0100".to_string());
    c.template = Some("simple".to_string());
    c.context = Some("name=Bob".to_string());
    c.no_create = true;
    c.symlink_only = true;
    let p = c.planner();
    assert!(p.no_create);
    assert_eq!(p.adjust, Some("0100"));
    assert_eq!(p.template, Some("simple"));
    assert_eq!(p.context, Some("name=Bob"));
    assert!(p.should_update_access);
    assert!(!p.should_update_modification);
    assert!(p.symlink_only);
}

#[test]
fn lone_h_asks_for_help() {
    let args = vec!["zap".to_string(), "-h".to_string()];
    assert!(process_h_args(&args).is_none());
}

#[test]
fn h_among_other_arguments_means_symlink() {
    let args = vec!["zap".to_string(), "-h".to_string(), "link.txt".to_string()];
    let out = process_h_args(&args).unwrap();
    assert_eq!(out, vec!["zap".to_string(), "--symlink".to_string(), "link.txt".to_string()]);

    let plain = vec!["zap".to_string(), "file.txt".to_string()];
    assert_eq!(process_h_args(&plain).unwrap(), plain);
}
