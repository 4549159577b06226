use evo_king::doctor::{
    CheckResult, Probe, Repair, Seen, check_binary, check_dir, check_file, check_gateway,
    check_repo, clone_repo_url, judge, pad, repair, repo_names, result_line, run_doctor, summarize,
};

fn seen(present: bool, executable: bool, repaired: bool) -> Seen {
    Seen { present, executable, repaired }
}

#[test]
fn everything_is_looked_at() {
    let probes = run_doctor("/e");
    assert_eq!(probes.len(), 6 + 2 + 6 * 4 + 2 + 10 + 1);
    assert!(matches!(&probes[0], Probe::Dir { path } if path == "/e"));
    assert!(matches!(&probes[3], Probe::Dir { path } if path == "/e/data/backups"));
    assert!(matches!(&probes[7], Probe::Binary { path } if path == "/e/bin/evo-gateway"));
    assert!(matches!(&probes[8], Probe::Dir { path } if path == "/e/evo-kernel-agent-learning"));
    assert!(matches!(&probes[9], Probe::Binary { path }
        if path == "/e/evo-kernel-agent-learning/evo-agent-learning"));
    assert!(matches!(&probes[10], Probe::File { path }
        if path == "/e/evo-kernel-agent-learning/soul.md"));
    assert!(matches!(&probes[11], Probe::Dir { path }
        if path == "/e/evo-kernel-agent-learning/skills"));
    assert!(matches!(&probes[32], Probe::File { path } if path == "/e/data/gateway.json"));
    assert!(matches!(&probes[34], Probe::Repo { name, path }
        if name == "evo-common" && path == "/e/repos/evo-common"));
    assert!(matches!(probes[44], Probe::Gateway));
    assert_eq!(repo_names().len(), 10);
}

fn told(result: &CheckResult) -> (bool, &str, bool) {
    (result.passed, result.message.as_str(), result.fixable)
}

#[test]
fn directories_are_made_where_wanted() {
    assert_eq!(told(&check_dir("/d", true, true, false)), (true, "exists", false));
    assert_eq!(told(&check_dir("/d", false, true, true)), (true, "created", true));
    assert_eq!(told(&check_dir("/d", false, true, false)), (false, "failed to create", true));
    assert_eq!(told(&check_dir("/d", false, false, false)), (false, "missing", true));
    let probe = Probe::Dir { path: "/d".to_string() };
    assert!(matches!(repair(&probe, true, false), Some(Repair::MakeDir { path }) if path == "/d"));
    assert!(repair(&probe, false, false).is_none());
    assert!(repair(&probe, true, true).is_none());
}

#[test]
fn binaries_files_and_the_gateway_are_only_looked_at() {
    assert_eq!(told(&check_binary("/b", true, true)), (true, "executable", false));
    assert_eq!(
        told(&check_binary("/b", true, false)),
        (false, "exists but not executable", false)
    );
    assert_eq!(
        told(&check_binary("/b", false, false)),
        (false, "missing (run install.sh to download)", false)
    );
    assert_eq!(told(&check_file("/f", true)), (true, "exists", false));
    assert_eq!(told(&check_file("/f", false)), (false, "missing", false));
    assert_eq!(told(&check_gateway(true)), (true, "reachable", false));
    assert_eq!(
        told(&check_gateway(false)),
        (false, "not reachable (start gateway first)", false)
    );
    assert_eq!(check_gateway(true).name, "gateway:3301/health");
    assert!(repair(&Probe::Gateway, true, false).is_none());
    assert!(repair(&Probe::File { path: "/f".to_string() }, true, false).is_none());
}

#[test]
fn repositories_are_cloned_where_wanted() {
    assert_eq!(told(&check_repo("evo-king", true, false)), (true, "exists", false));
    assert_eq!(told(&check_repo("evo-king", false, true)), (true, "cloned", true));
    assert_eq!(
        told(&check_repo("evo-king", false, false)),
        (false, "missing (run with --fix to clone)", true)
    );
    assert_eq!(check_repo("evo-king", true, false).name, "repos/evo-king");
    assert_eq!(clone_repo_url("evo-king"), "https://github.com/ai-evo-agents/evo-king.git");
    let probe = Probe::Repo { name: "x".to_string(), path: "/e/repos/x".to_string() };
    match repair(&probe, true, false) {
        Some(Repair::Clone { url, path }) => {
            assert_eq!(url, "https://github.com/ai-evo-agents/x.git");
            assert_eq!(path, "/e/repos/x");
        }
        _ => panic!("not cloned"),
    }
}

#[test]
fn probes_are_judged_by_what_was_seen() {
    let dir = judge(&Probe::Dir { path: "/d".to_string() }, true, seen(false, false, true));
    assert_eq!(told(&dir), (true, "created", true));
    let binary = judge(&Probe::Binary { path: "/b".to_string() }, true, seen(true, true, false));
    assert_eq!(told(&binary), (true, "executable", false));
    let gateway = judge(&Probe::Gateway, false, seen(false, false, false));
    assert!(!gateway.passed);
}

#[test]
fn lines_are_padded() {
    assert_eq!(pad("ab", 4), "ab  ");
    assert_eq!(pad("abcde", 4), "abcde");
    let ok = CheckResult {
        name: "/d".to_string(),
        passed: true,
        message: "exists".to_string(),
        fixable: false,
    };
    assert_eq!(result_line(&ok), format!("  \u{2714} [{:>4}] {:<45} {}", "OK", "/d", "exists"));
    let fail = CheckResult { passed: false, ..ok };
    assert_eq!(result_line(&fail), format!("  \u{2718} [{:>4}] {:<45} {}", "FAIL", "/d", "exists"));
}

#[test]
fn summaries_count_and_decide_the_exit_code() {
    let pass = check_file("/f", true);
    let fail = check_file("/g", false);
    let mixed = summarize(&vec![pass, fail], false);
    assert_eq!((mixed.passed, mixed.failed, mixed.exit_code), (1, 1, 1));
    assert_eq!(mixed.line, "  1 passed, 1 failed (total: 2)");
    assert_eq!(mixed.hint.as_deref(), Some("  Run with --fix to attempt automatic repairs."));
    let fixed = summarize(&vec![check_file("/g", false)], true);
    assert!(fixed.hint.is_none());
    assert_eq!(fixed.exit_code, 1);
    let good = summarize(&vec![check_file("/f", true)], false);
    assert_eq!((good.passed, good.failed, good.exit_code), (1, 0, 0));
    assert!(good.hint.is_none());
}
