use chrono::Utc;
use zap::editor::{editor_command, split_words};
use zap::errors::ZapError;
use zap::fileaction::{parent_dir_step, Action, DirStep, Planner};
use zap::file_time_util::{AdjustableFileTime, FileTimeSpec};
use zap::template::{is_plugin_extension, is_whitespace, parse_context};

fn planner<'a>() -> Planner<'a> {
    Planner {
        no_create: false,
        adjust: None,
        template: None,
        context: None,
        should_update_access: true,
        should_update_modification: true,
        create_intermediate_dirs: false,
        symlink_only: false,
    }
}

fn fixed_time() -> AdjustableFileTime {
    AdjustableFileTime::from_unix_time(1_672_531_200, 0)
}

#[test]
fn absent_file_with_no_create_is_skipped() {
    let mut p = planner();
    p.no_create = true;
    p.adjust = Some("010000");
    p.template = Some("simple");
    let explicit = FileTimeSpec::both(fixed_time());
    let actions = p.plan(false, Some(&explicit)).unwrap();
    assert_eq!(actions.len(), 1);
    match &actions[0] {
        Action::Skip { reason } => assert!(reason.contains("--no-create flag is set")),
        other => panic!("unexpected {other:?}"),
    }
}

#[test]
fn absent_file_with_template_is_created_then_timed() {
    let mut p = planner();
    p.template = Some("simple");
    p.context = Some("name=Bob");
    let actions = p.plan(false, None).unwrap();
    assert_eq!(actions.len(), 2);
    match &actions[0] {
        Action::CreateWithTemplate { template_name, context_str } => {
            assert_eq!(template_name, "simple");
            assert_eq!(context_str.as_deref(), Some("name=Bob"));
        }
        other => panic!("unexpected {other:?}"),
    }
    assert!(matches!(actions[1], Action::SetTimes { .. }));
}

#[test]
fn absent_file_without_flags_is_created_now() {
    let before = Utc::now().timestamp();
    let actions = planner().plan(false, None).unwrap();
    let after = Utc::now().timestamp();
    assert_eq!(actions.len(), 2);
    assert!(matches!(actions[0], Action::CreateEmpty));
    match &actions[1] {
        Action::SetTimes { times } => {
            let a = times.atime.unwrap();
            assert_eq!(times.atime, times.mtime);
            assert!(before <= a.unix_seconds() && a.unix_seconds() <= after);
        }
        other => panic!("unexpected {other:?}"),
    }
}

#[test]
fn present_file_is_touched_with_explicit_times() {
    let mut p = planner();
    p.should_update_modification = false;
    let explicit = FileTimeSpec::both(fixed_time());
    let actions = p.plan_at(true, Some(&explicit), AdjustableFileTime::from_unix_time(5, 0));
    assert_eq!(actions.len(), 1);
    match &actions[0] {
        Action::SetTimes { times } => {
            assert_eq!(*times, FileTimeSpec::access_only(fixed_time()));
        }
        other => panic!("unexpected {other:?}"),
    }
}

#[test]
fn present_file_is_touched_with_now() {
    let now = AdjustableFileTime::from_unix_time(77, 3);
    let actions = planner().plan_at(true, None, now);
    assert_eq!(actions.len(), 1);
    assert!(matches!(actions[0], Action::SetTimes { times } if times == FileTimeSpec::both(now)));
}

#[test]
fn present_file_with_adjustment_only_is_adjusted() {
    let mut p = planner();
    p.adjust = Some("010000");
    p.should_update_modification = false;
    let actions = p.plan(true, None).unwrap();
    assert_eq!(actions.len(), 1);
    match &actions[0] {
        Action::AdjustTimes { adjustment_str, should_update_access, should_update_modification } => {
            assert_eq!(adjustment_str, "010000");
            assert!(*should_update_access);
            assert!(!*should_update_modification);
        }
        other => panic!("unexpected {other:?}"),
    }
}

#[test]
fn explicit_time_then_adjustment() {
    let mut p = planner();
    p.adjust = Some("020000");
    let explicit = FileTimeSpec::both(fixed_time());
    let actions = p.plan(true, Some(&explicit)).unwrap();
    assert_eq!(actions.len(), 2);
    assert!(matches!(actions[0], Action::SetTimes { times } if times == explicit));
    assert!(matches!(actions[1], Action::AdjustTimes { .. }));
}

#[test]
fn present_file_with_template_is_overwritten_then_timed() {
    let mut p = planner();
    p.template = Some("simple");
    p.adjust = Some("0100");
    let actions = p.plan_at(true, None, fixed_time());
    assert_eq!(actions.len(), 3);
    assert!(matches!(&actions[0], Action::OverwriteWithTemplate { context_str: None, .. }));
    assert!(matches!(actions[1], Action::SetTimes { .. }));
    assert!(matches!(actions[2], Action::AdjustTimes { .. }));
}

#[test]
fn context_pairs_are_split_and_trimmed() {
    let pairs = parse_context(" name = Bob ,skip,x=a=b,,empty=");
    let expected: Vec<(String, String)> = vec![
        ("name".to_string(), "Bob".to_string()),
        ("x".to_string(), "a=b".to_string()),
        ("empty".to_string(), String::new()),
    ];
    assert_eq!(pairs, expected);
    assert!(parse_context("").is_empty());
    assert_eq!(parse_context("name=Bob"), vec![("name".to_string(), "Bob".to_string())]);
}

#[test]
fn plugin_extensions() {
    assert!(is_plugin_extension("so"));
    assert!(is_plugin_extension("dylib"));
    assert!(is_plugin_extension("dll"));
    assert!(!is_plugin_extension("txt"));
    assert!(!is_plugin_extension("s"));
    assert!(!is_plugin_extension("SO"));
}

#[test]
fn parent_directory_decisions() {
    assert_eq!(parent_dir_step(false, false), DirStep::Nothing);
    assert_eq!(parent_dir_step(true, true), DirStep::Create);
    assert_eq!(parent_dir_step(true, false), DirStep::Ask);
}

#[test]
fn editor_command_is_split_on_white_space() {
    assert_eq!(split_words("  code  --wait\t-n "), vec!["code", "--wait", "-n"]);
    let (program, args) = editor_command("vim").unwrap();
    assert_eq!(program, "vim");
    assert!(args.is_empty());
    let (program, args) = editor_command(" code --wait ").unwrap();
    assert_eq!(program, "code");
    assert_eq!(args, vec!["--wait".to_string()]);
    match editor_command("   ") {
        Err(ZapError::EditorCommandParseError(s)) => assert_eq!(s, "   "),
        other => panic!("unexpected {other:?}"),
    }
}

#[test]
fn declines_are_not_failures() {
    assert!(ZapError::UserDeclinedOverwrite.is_user_decline());
    assert!(ZapError::UserDeclinedDirCreation.is_user_decline());
    assert!(!ZapError::TimeAdjustmentOverflow.is_user_decline());
}

#[test]
fn white_space_matches_std() {
    for u in 0u32..=0x10FFFF {
        if let Some(c) = char::from_u32(u) {
            assert_eq!(is_whitespace(c), c.is_whitespace(), "U+{u:04X}");
        }
    }
    let pairs = parse_context("\u{3000}k\u{2009}=\u{a0}v\u{85}");
    assert_eq!(pairs, vec![("k".to_string(), "v".to_string())]);
}
