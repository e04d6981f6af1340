use branchswitch::command::{Cmd, CommandError};
use branchswitch::digest::fingerprint;
use branchswitch::manifest::{pre_fingerprint, DependencyDefinition};
use branchswitch::pipeline::Pipeline;

fn def(file: &str, program: &str, args: &[&str]) -> DependencyDefinition {
    DependencyDefinition {
        file: file.to_string(),
        install_cmd: Cmd {
            cmd: program.to_string(),
            args: args.iter().map(|a| a.to_string()).collect(),
        },
    }
}

#[test]
fn note_checksum_records_definition_and_digest() {
    let d = def("yarn.lock", "yarn", &["install"]);
    let noted = d.note_checksum(&b"v1".to_vec());
    assert_eq!(noted.definition.file, "yarn.lock");
    assert_eq!(noted.definition.install_cmd.cmd, "yarn");
    assert_eq!(noted.checksum_before_switch, fingerprint(&b"v1".to_vec()));
}

#[test]
fn update_needed_tracks_content_change() {
    let d = def("yarn.lock", "yarn", &["install"]);
    let noted = d.note_checksum(&b"v1".to_vec());
    assert!(!noted.update_needed(&b"v1".to_vec()));
    assert!(noted.update_needed(&b"v2".to_vec()));
}

#[test]
fn unchanged_manifest_runs_no_install() {
    let d = def("requirements.txt", "pip", &["install", "-r", "requirements.txt"]);
    let before = b"requests==2.31\n".to_vec();
    let mut p = Pipeline::new(vec![d.note_checksum(&before)]);
    assert!(p.on_switch_outcome(Ok(())).is_ok());
    assert!(p.has_pending_read());
    assert_eq!(p.current_path().as_str(), "requirements.txt");
    assert!(!p.on_refingerprint(Ok(before)));
    assert!(p.is_complete());
    let rep = p.report();
    assert_eq!(rep.processed, 1);
    assert!(rep.failures.is_empty());
    assert!(rep.all_ok());
}

#[test]
fn changed_manifest_runs_install_exactly_once() {
    let d = def("requirements.txt", "pip", &["install", "-r", "requirements.txt"]);
    let mut p = Pipeline::new(vec![d.note_checksum(&b"requests==2.31\n".to_vec())]);
    assert!(p.on_switch_outcome(Ok(())).is_ok());
    assert!(p.on_refingerprint(Ok(b"requests==2.32\n".to_vec())));
    {
        let cmd = p.current_install_command();
        assert_eq!(cmd.cmd, "pip");
        assert_eq!(cmd.args, vec!["install", "-r", "requirements.txt"]);
    }
    // no second read or install is pending until the outcome is handed in
    assert!(!p.has_pending_read());
    assert!(!p.is_complete());
    p.on_install_outcome(Ok(()));
    assert!(p.is_complete());
    let rep = p.report();
    assert_eq!(rep.processed, 1);
    assert!(rep.all_ok());
}

#[test]
fn failed_switch_aborts_run() {
    let d = def("yarn.lock", "yarn", &["install"]);
    let mut p = Pipeline::new(vec![d.note_checksum(&b"lock".to_vec())]);
    let fatal = p
        .on_switch_outcome(Err(CommandError::RunError))
        .err()
        .expect("a failed switch must be fatal");
    assert!(matches!(fatal.error, CommandError::RunError));
    assert!(p.is_aborted());
    // nothing further is requested: no read, no install, no report
    assert!(!p.has_pending_read());
    assert!(!p.is_complete());
}

#[test]
fn unlaunchable_switch_keeps_its_message() {
    let mut p = Pipeline::new(Vec::new());
    let fatal = p
        .on_switch_outcome(Err(CommandError::IoError("git: not found".to_string())))
        .err()
        .expect("a failed switch must be fatal");
    match fatal.error {
        CommandError::IoError(m) => assert_eq!(m, "git: not found"),
        CommandError::RunError => panic!("expected an io failure"),
    }
    assert!(p.is_aborted());
}

#[test]
fn missing_manifest_is_excluded_entirely() {
    let defs = vec![
        def("requirements.txt", "pip", &["install", "-r", "requirements.txt"]),
        def("Gemfile.lock", "bundle", &["install"]),
    ];
    let reads = vec![Some(b"flask\n".to_vec()), None];
    let survivors = pre_fingerprint(&defs, &reads);
    assert_eq!(survivors.len(), 1);
    assert_eq!(survivors[0].definition.file, "requirements.txt");

    let mut p = Pipeline::new(survivors);
    assert!(p.on_switch_outcome(Ok(())).is_ok());
    assert_eq!(p.current_path().as_str(), "requirements.txt");
    assert!(!p.on_refingerprint(Ok(b"flask\n".to_vec())));
    assert!(p.is_complete());
    let rep = p.report();
    // the missing manifest is neither a success nor a failure: it is absent
    assert_eq!(rep.processed, 1);
    assert!(rep.failures.is_empty());
}

#[test]
fn pre_fingerprint_keeps_declaration_order() {
    let defs = vec![
        def("a.lock", "tool-a", &["install"]),
        def("b.lock", "tool-b", &["install"]),
        def("c.lock", "tool-c", &["install"]),
    ];
    let reads = vec![Some(b"aaa".to_vec()), None, Some(b"ccc".to_vec())];
    let survivors = pre_fingerprint(&defs, &reads);
    assert_eq!(survivors.len(), 2);
    assert_eq!(survivors[0].definition.file, "a.lock");
    assert_eq!(survivors[1].definition.file, "c.lock");
    assert_eq!(survivors[0].checksum_before_switch, fingerprint(&b"aaa".to_vec()));
    assert_eq!(survivors[1].checksum_before_switch, fingerprint(&b"ccc".to_vec()));
}

#[test]
fn vanished_manifest_recorded_as_io_failure() {
    let d = def("Gemfile.lock", "bundle", &["install"]);
    let mut p = Pipeline::new(vec![d.note_checksum(&b"gems".to_vec())]);
    assert!(p.on_switch_outcome(Ok(())).is_ok());
    assert!(!p.on_refingerprint(Err("No such file or directory".to_string())));
    assert!(p.is_complete());
    let rep = p.report();
    assert_eq!(rep.processed, 1);
    assert_eq!(rep.failures.len(), 1);
    assert_eq!(rep.failures[0].file, "Gemfile.lock");
    match &rep.failures[0].error {
        CommandError::IoError(m) => assert_eq!(m, "No such file or directory"),
        CommandError::RunError => panic!("expected an io failure"),
    }
}

#[test]
fn failures_reported_in_registry_order() {
    let mut p = Pipeline::new(vec![
        def("a.lock", "tool-a", &["install"]).note_checksum(&b"aaa".to_vec()),
        def("b.lock", "tool-b", &["install"]).note_checksum(&b"bbb".to_vec()),
        def("c.lock", "tool-c", &["install"]).note_checksum(&b"ccc".to_vec()),
    ]);
    assert!(p.on_switch_outcome(Ok(())).is_ok());
    // a.lock unchanged
    assert_eq!(p.current_path().as_str(), "a.lock");
    assert!(!p.on_refingerprint(Ok(b"aaa".to_vec())));
    // b.lock changed; its install exits non-zero
    assert_eq!(p.current_path().as_str(), "b.lock");
    assert!(p.on_refingerprint(Ok(b"BBB".to_vec())));
    assert_eq!(p.current_install_command().cmd, "tool-b");
    p.on_install_outcome(Err(CommandError::RunError));
    // c.lock changed; its install cannot be launched
    assert_eq!(p.current_path().as_str(), "c.lock");
    assert!(p.on_refingerprint(Ok(b"CCC".to_vec())));
    p.on_install_outcome(Err(CommandError::IoError("tool-c: not found".to_string())));
    assert!(p.is_complete());

    let rep = p.report();
    assert_eq!(rep.processed, 3);
    assert_eq!(rep.failures.len(), 2);
    assert_eq!(rep.failures[0].file, "b.lock");
    assert!(matches!(rep.failures[0].error, CommandError::RunError));
    assert_eq!(rep.failures[1].file, "c.lock");
    assert!(matches!(rep.failures[1].error, CommandError::IoError(_)));
}

#[test]
fn scenario_two_manifests_then_mutated_yarn_lock() {
    let reqs = def("requirements.txt", "pip", &["install", "-r", "requirements.txt"]);
    let yarn = def("yarn.lock", "yarn", &["install"]);
    let req_bytes = b"flask==2.0.1\n".to_vec();
    let yarn_bytes = b"# yarn lockfile v1\n".to_vec();

    // both files unchanged across the switch: zero failures
    let mut p = Pipeline::new(vec![
        reqs.note_checksum(&req_bytes),
        yarn.note_checksum(&yarn_bytes),
    ]);
    assert!(p.on_switch_outcome(Ok(())).is_ok());
    assert!(!p.on_refingerprint(Ok(req_bytes.clone())));
    assert!(!p.on_refingerprint(Ok(yarn_bytes.clone())));
    let rep = p.report();
    assert_eq!(rep.processed, 2);
    assert!(rep.all_ok());

    // yarn.lock mutated: yarn install requested once; it exits 0
    let mutated = b"# yarn lockfile v1\nleft-pad@1.3.0\n".to_vec();
    let mut p = Pipeline::new(vec![
        reqs.note_checksum(&req_bytes),
        yarn.note_checksum(&yarn_bytes),
    ]);
    assert!(p.on_switch_outcome(Ok(())).is_ok());
    assert!(!p.on_refingerprint(Ok(req_bytes.clone())));
    assert!(p.on_refingerprint(Ok(mutated.clone())));
    {
        let cmd = p.current_install_command();
        assert_eq!(cmd.cmd, "yarn");
        assert_eq!(cmd.args, vec!["install"]);
    }
    p.on_install_outcome(Ok(()));
    let rep = p.report();
    assert!(rep.all_ok());

    // same mutation, but yarn install exits 1: exactly one run failure
    let mut p = Pipeline::new(vec![
        reqs.note_checksum(&req_bytes),
        yarn.note_checksum(&yarn_bytes),
    ]);
    assert!(p.on_switch_outcome(Ok(())).is_ok());
    assert!(!p.on_refingerprint(Ok(req_bytes.clone())));
    assert!(p.on_refingerprint(Ok(mutated)));
    p.on_install_outcome(Err(CommandError::RunError));
    let rep = p.report();
    assert!(!rep.all_ok());
    assert_eq!(rep.failures.len(), 1);
    assert_eq!(rep.failures[0].file, "yarn.lock");
    assert!(matches!(rep.failures[0].error, CommandError::RunError));
}

#[test]
fn empty_registry_completes_immediately() {
    let mut p = Pipeline::new(Vec::new());
    assert!(p.on_switch_outcome(Ok(())).is_ok());
    assert!(!p.has_pending_read());
    assert!(p.is_complete());
    let rep = p.report();
    assert_eq!(rep.processed, 0);
    assert!(rep.all_ok());
}

#[test]
fn all_manifests_missing_yields_empty_run() {
    let defs = vec![
        def("requirements.txt", "pip", &["install"]),
        def("yarn.lock", "yarn", &["install"]),
    ];
    let reads = vec![None, None];
    let survivors = pre_fingerprint(&defs, &reads);
    assert!(survivors.is_empty());

    let mut p = Pipeline::new(survivors);
    assert!(p.on_switch_outcome(Ok(())).is_ok());
    assert!(p.is_complete());
    let rep = p.report();
    assert_eq!(rep.processed, 0);
    assert!(rep.all_ok());
}
