use evo_king::system_discovery::{
    ChecklistStatus, DiscoveredTool, EvoComponent, SystemInfo, ToolOutput, ToolProbe, ToolStatus,
    build_checklist, count_statuses, discover_evo_components, evo_home_or_default, get_hostname,
    get_total_memory, macos_memory, macos_version, os_version, parse_version_string, probe_component, probe_tool, run_discovery,
    save_path, sort_tools, tool_probes, total_memory_kb, which_path,
};

#[test]
fn only_the_first_line_of_a_version_counts() {
    for line in ["", "tool 1.2.3", "no version", "tool v4.5 \r", "  x\t"] {
        let whole = format!("{line}\nother 9.9.9\n");
        assert_eq!(parse_version_string(&whole), parse_version_string(line), "{line:?}");
    }
    assert_eq!(parse_version_string("tool\r\n1.0"), "tool");
}

#[test]
fn the_answers_of_macos_are_read() {
    assert_eq!(macos_version(Some(" 14.2.1\n")), "14.2.1");
    assert_eq!(macos_version(None), "");
    assert_eq!(macos_memory(Some("17179869184\n")), Some(17_179_869_184));
    assert_eq!(macos_memory(Some("many")), None);
    assert_eq!(macos_memory(Some("99999999999999999999")), None);
    assert_eq!(macos_memory(None), None);
}

#[test]
fn parse_version_rustc() {
    assert_eq!(
        parse_version_string("rustc 1.76.0 (07dca489a 2024-02-04)"),
        "1.76.0"
    );
}

#[test]
fn parse_version_node() {
    assert_eq!(parse_version_string("v20.11.0"), "20.11.0");
}

#[test]
fn parse_version_git() {
    assert_eq!(parse_version_string("git version 2.43.0"), "2.43.0");
}

#[test]
fn parse_version_npm() {
    assert_eq!(parse_version_string("10.2.4"), "10.2.4");
}

#[test]
fn parse_version_docker() {
    assert_eq!(
        parse_version_string("Docker version 24.0.7, build afdd53b"),
        "24.0.7"
    );
}

#[test]
fn parse_version_plain_text() {
    assert_eq!(parse_version_string("some tool"), "some tool");
}

#[test]
fn serialize_tool_status() {
    let status = ToolStatus::Suggested;
    let json = serde_json::to_string(&status.to_json()).unwrap();
    assert_eq!(json, r#""suggested""#);
}

#[test]
fn serialize_checklist_status() {
    let status = ChecklistStatus::Pass;
    let json = serde_json::to_string(&status.to_json()).unwrap();
    assert_eq!(json, r#""pass""#);
}

#[test]
fn status_names() {
    assert_eq!(ToolStatus::Available.name(), "available");
    assert_eq!(ToolStatus::NotFound.name(), "not_found");
    assert_eq!(ChecklistStatus::Fail.name(), "fail");
    assert_eq!(ChecklistStatus::Suggested.name(), "suggested");
}

#[test]
fn parse_version_of_other_shapes() {
    assert_eq!(parse_version_string("node v20.11.0"), "20.11.0");
    assert_eq!(parse_version_string("npm 10.2.4"), "10.2.4");
    assert_eq!(parse_version_string("rustc 1.82.0 (hash)\nsecond 9.9"), "1.82.0");
    assert_eq!(parse_version_string("  curl 8.5.0 (x)  "), "8.5.0");
    assert_eq!(parse_version_string(""), "");
    assert_eq!(parse_version_string("build 7"), "build 7");
    assert_eq!(parse_version_string("vv1.0"), "vv1.0");
    assert_eq!(parse_version_string("1.0,,"), "1.0");
    assert_eq!(parse_version_string("a 1.2\r\nb"), "1.2");
}

#[test]
fn version_of_a_version() {
    for raw in [
        "rustc 1.76.0 (07dca489a 2024-02-04)",
        "Docker version 24.0.7, build afdd53b",
        "some tool",
        "\u{2003}odd\u{a0}white\u{2003}",
    ] {
        let once = parse_version_string(raw);
        assert_eq!(parse_version_string(&once), once);
    }
}

fn probe_named(name: &str) -> ToolProbe {
    tool_probes().into_iter().find(|p| p.name == name).unwrap()
}

#[test]
fn tools_are_probed_by_their_commands() {
    let names: Vec<&str> = tool_probes().iter().map(|p| p.name).collect();
    assert_eq!(
        names,
        vec![
            "rustc", "cargo", "rustup", "cargo-clippy", "cargo-fmt", "node", "npm", "npx", "bun",
            "git", "rg", "curl", "docker", "python3",
        ]
    );
    let clippy = probe_named("cargo-clippy");
    assert_eq!(clippy.command, "cargo");
    assert_eq!(clippy.version_args, vec!["clippy", "--version"]);
    assert!(!clippy.suggested);
    assert_eq!(probe_named("cargo-fmt").command, "rustfmt");
    assert_eq!(probe_named("git").suggestion_reason, "Required for repo cloning and updates");
}

#[test]
fn tool_that_answers_is_available() {
    let output = ToolOutput { stdout: "git version 2.43.0\n".to_string(), stderr: String::new() };
    let tool = probe_tool(&probe_named("git"), Some(&output), Some("/usr/bin/git"));
    assert_eq!(tool.status, ToolStatus::Available);
    assert_eq!(tool.version.as_deref(), Some("2.43.0"));
    assert_eq!(tool.path.as_deref(), Some("/usr/bin/git"));
    assert_eq!(tool.category, "system");
    assert!(tool.suggestion_reason.is_none());
    let quiet = ToolOutput { stdout: " \n".to_string(), stderr: "rustfmt 1.7.0".to_string() };
    let tool = probe_tool(&probe_named("cargo-fmt"), Some(&quiet), None);
    assert_eq!(tool.version.as_deref(), Some("1.7.0"));
}

#[test]
fn tool_that_is_silent_is_missing_or_suggested() {
    let tool = probe_tool(&probe_named("rg"), None, None);
    assert_eq!(tool.status, ToolStatus::Suggested);
    assert_eq!(
        tool.suggestion_reason.as_deref(),
        Some("Required for fast code search in agents")
    );
    let tool = probe_tool(&probe_named("docker"), None, None);
    assert_eq!(tool.status, ToolStatus::NotFound);
    assert!(tool.suggestion_reason.is_none());
    assert!(tool.version.is_none());
}

fn tool(name: &str, category: &str, status: ToolStatus) -> DiscoveredTool {
    DiscoveredTool {
        name: name.to_string(),
        version: None,
        path: None,
        status,
        suggestion_reason: None,
        category: category.to_string(),
    }
}

#[test]
fn tools_are_sorted_by_category_and_name() {
    let sorted = sort_tools(vec![
        tool("rg", "system", ToolStatus::NotFound),
        tool("npm", "node_js", ToolStatus::NotFound),
        tool("git", "system", ToolStatus::NotFound),
        tool("cargo", "rust_toolchain", ToolStatus::NotFound),
    ]);
    let names: Vec<&str> = sorted.iter().map(|t| t.name.as_str()).collect();
    assert_eq!(names, vec!["npm", "cargo", "git", "rg"]);
}

#[test]
fn answers_of_the_system() {
    assert_eq!(which_path(Some(" /usr/bin/git\n")).as_deref(), Some("/usr/bin/git"));
    assert!(which_path(None).is_none());
    assert_eq!(get_hostname(Some("box\n")), "box");
    assert_eq!(get_hostname(None), "unknown");
    assert_eq!(os_version("NAME=x\nPRETTY_NAME=\"Debian 12\"\n"), "Debian 12");
    assert_eq!(os_version("NAME=x\n"), "");
    assert_eq!(
        get_total_memory("MemFree: 1 kB\nMemTotal:       16384 kB\n"),
        Some(16384 * 1024)
    );
    assert_eq!(get_total_memory("MemTotal: many kB"), None);
    assert_eq!(total_memory_kb("MemTotal: 7 kB"), Some(7));
    assert_eq!(evo_home_or_default(None, "/home/u"), "/home/u/.evo-agents");
    assert_eq!(evo_home_or_default(Some("/opt/evo"), "/home/u"), "/opt/evo");
}

#[test]
fn components_and_their_paths() {
    let paths = discover_evo_components("/e");
    assert_eq!(paths.len(), 9);
    assert_eq!(paths[0].path, "/e/bin/evo-king");
    assert_eq!(paths[2].name, "evo-runner");
    assert_eq!(paths[5].name, "evo-kernel-agent-pre-load");
    assert_eq!(paths[5].path, "/e/evo-kernel-agent-pre-load/evo-agent-pre-load");
    let there = probe_component(&paths[0], true, Some("evo-king 0.2.0"));
    assert!(there.found);
    assert_eq!(there.version.as_deref(), Some("0.2.0"));
    assert_eq!(there.binary_path.as_deref(), Some("/e/bin/evo-king"));
    let missing = probe_component(&paths[0], false, None);
    assert!(!missing.found && missing.binary_path.is_none() && missing.version.is_none());
}

fn system() -> SystemInfo {
    SystemInfo {
        os: "linux".to_string(),
        os_version: "Debian 12".to_string(),
        arch: "x86_64".to_string(),
        hostname: "box".to_string(),
        cpu_count: 4,
        memory_bytes: Some(1024),
        home_dir: "/home/u".to_string(),
        evo_home: "/home/u/.evo-agents".to_string(),
    }
}

#[test]
fn checklist_has_an_item_for_everything() {
    let tools = vec![
        tool("git", "system", ToolStatus::Available),
        tool("docker", "system", ToolStatus::NotFound),
        tool("rg", "system", ToolStatus::Suggested),
    ];
    let components = vec![
        EvoComponent {
            name: "evo-king".to_string(),
            binary_path: Some("/e/bin/evo-king".to_string()),
            version: None,
            found: true,
        },
        EvoComponent {
            name: "evo-runner".to_string(),
            binary_path: None,
            version: None,
            found: false,
        },
    ];
    let items = build_checklist(&system(), true, &tools, &components);
    let seen: Vec<(&str, ChecklistStatus, &str)> =
        items.iter().map(|i| (i.name.as_str(), i.status, i.message.as_str())).collect();
    assert_eq!(
        seen,
        vec![
            ("evo_home_exists", ChecklistStatus::Pass, "/home/u/.evo-agents"),
            ("tool:git", ChecklistStatus::Pass, "not found"),
            ("tool:docker", ChecklistStatus::Fail, "not found"),
            ("tool:rg", ChecklistStatus::Suggested, "not found"),
            ("evo:evo-king", ChecklistStatus::Pass, "found (version unknown)"),
            ("evo:evo-runner", ChecklistStatus::Fail, "missing"),
        ]
    );
    assert_eq!(count_statuses(&items), (3, 2, 1));
    assert_eq!(items.len(), 1 + tools.len() + components.len());
}

#[test]
fn discovery_holds_what_was_found() {
    let tools = vec![tool("rg", "system", ToolStatus::NotFound), tool("git", "system", ToolStatus::Available)];
    let discovery = run_discovery("0.2.0", system(), false, tools, Vec::new());
    assert_eq!(discovery.king_version, "0.2.0");
    assert_eq!(discovery.tools[0].name, "git");
    assert_eq!(discovery.checklist.len(), 3);
    assert_eq!(discovery.checklist[0].status, ChecklistStatus::Fail);
    assert!(discovery.discovered_at.contains('T'));
    assert_eq!(save_path("/e"), "/e/data/system_info.json");
}
