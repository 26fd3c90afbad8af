use peek::{Format, PeekError, Program, TargetSpec};

#[test]
fn program_new_splits_command_line() {
    let p = Program::new("sleep 1").unwrap();
    assert_eq!(p.command, "sleep");
    assert_eq!(p.args, vec![String::from("1")]);
}

#[test]
fn program_new_handles_extra_whitespace() {
    let p = Program::new("  tar \t -czf\narchive.tar.gz  . ").unwrap();
    assert_eq!(p.command, "tar");
    assert_eq!(
        p.args,
        vec![
            String::from("-czf"),
            String::from("archive.tar.gz"),
            String::from("."),
        ]
    );
}

#[test]
fn program_new_without_arguments() {
    let p = Program::new("top").unwrap();
    assert_eq!(p.command, "top");
    assert!(p.args.is_empty());
}

#[test]
fn empty_command_line_is_a_configuration_error() {
    assert_eq!(Program::new("").unwrap_err(), PeekError::Configuration);
    assert_eq!(Program::new("   \t ").unwrap_err(), PeekError::Configuration);
}

#[test]
fn unicode_whitespace_splits_the_command_line() {
    let p = Program::new("a\u{0B}b").unwrap();
    assert_eq!(p.command, "a");
    assert_eq!(p.args, vec![String::from("b")]);
    let q = Program::new("du\u{A0}-sh\u{3000}/tmp").unwrap();
    assert_eq!(q.command, "du");
    assert_eq!(q.args, vec![String::from("-sh"), String::from("/tmp")]);
}

#[test]
fn unicode_whitespace_only_is_a_configuration_error() {
    assert_eq!(
        Program::new("\u{A0}\u{2003}\u{2028}").unwrap_err(),
        PeekError::Configuration
    );
}

#[test]
fn resolve_target_needs_exactly_one_of_command_and_pid() {
    assert_eq!(
        peek::resolve_target(None, None).unwrap_err(),
        PeekError::Configuration
    );
    assert_eq!(
        peek::resolve_target(Some("ls"), Some(1)).unwrap_err(),
        PeekError::Configuration
    );
    match peek::resolve_target(None, Some(17)).unwrap() {
        TargetSpec::Attach(pid) => assert_eq!(pid, 17),
        TargetSpec::Spawn(_) => panic!("expected an attach target"),
    }
    match peek::resolve_target(Some("du -sh /"), None).unwrap() {
        TargetSpec::Spawn(p) => {
            assert_eq!(p.command, "du");
            assert_eq!(p.args, vec![String::from("-sh"), String::from("/")]);
        }
        TargetSpec::Attach(_) => panic!("expected a spawn target"),
    }
}

#[test]
fn spawn_candidates_try_bare_then_cwd_relative() {
    let c = peek::spawn_candidates("/home/user", "ls");
    assert_eq!(c, vec![String::from("ls"), String::from("/home/user/ls")]);
}

#[test]
fn csv_is_not_implemented() {
    assert_eq!(Format::Csv.validate().unwrap_err(), PeekError::NotImplemented);
    assert!(Format::Json.validate().is_ok());
}

#[test]
fn default_file_name_follows_the_format() {
    assert_eq!(Format::Json.default_file_name(), "peek.json");
    assert_eq!(Format::Csv.default_file_name(), "peek.csv");
    assert_eq!(Format::Json.name(), "json");
    assert_eq!(Format::Csv.name(), "csv");
}

#[test]
fn output_path_prefers_the_user_path() {
    assert_eq!(
        peek::output_path(Some(String::from("/tmp/out.json")), "/work", &Format::Json),
        "/tmp/out.json"
    );
    assert_eq!(
        peek::output_path(None, "/work", &Format::Json),
        "/work/peek.json"
    );
    assert_eq!(
        peek::output_path(None, "/work", &Format::Csv),
        "/work/peek.csv"
    );
}

#[test]
fn error_descriptions_name_the_failure() {
    assert_eq!(
        PeekError::NoSuchProcess.describe(),
        "no such process is running"
    );
    assert_eq!(
        PeekError::NotImplemented.describe(),
        "output format is not implemented"
    );
    assert_eq!(
        PeekError::Configuration.describe(),
        "missing or contradictory program specification"
    );
    assert_eq!(
        PeekError::Spawn.describe(),
        "target executable could not be launched"
    );
    assert_eq!(
        PeekError::SignalSetup.describe(),
        "could not install the interrupt handler"
    );
    assert_eq!(
        PeekError::Output.describe(),
        "could not write the collected samples"
    );
}

#[test]
fn attach_decision_rejects_a_missing_process() {
    assert_eq!(peek::attach_decision(5, false).unwrap_err(), PeekError::NoSuchProcess);
    assert_eq!(peek::attach_decision(5, true).unwrap(), 5);
}

#[test]
fn attach_validates_against_the_live_process_table() {
    let mut sys = sysinfo::System::new();
    let me = sysinfo::get_current_pid().expect("current pid").as_u32();
    assert_eq!(peek::attach(&mut sys, me).unwrap(), me);
    assert_eq!(
        peek::attach(&mut sys, 4_000_000_000).unwrap_err(),
        PeekError::NoSuchProcess
    );
}

#[test]
fn effective_cpu_count_floors_at_one() {
    assert_eq!(peek::effective_cpu_count(0), 1);
    assert_eq!(peek::effective_cpu_count(1), 1);
    assert_eq!(peek::effective_cpu_count(8), 8);
}

#[test]
fn provider_reports_at_least_one_cpu() {
    let mut sys = sysinfo::System::new();
    assert!(peek::provider_cpu_count(&mut sys) >= 1);
}
