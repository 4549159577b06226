use evo_king::agent_manager::{
    AgentFolder, AgentProcess, AgentRegistry, FolderEntry, Heartbeat, Respawn, Revival,
    after_attempt, agent_binary_path, check_heartbeat, discover_agents_by_prefix,
    discover_kernel_agents, discover_user_agents, expected_kernel_roles, first_attempt,
    is_named_after, judge_heartbeat, per_agent_binary_name, revival_error, revive, role_of_folder,
    spawn_runner,
};
use evo_king::doctor::kernel_agents;
use evo_king::stamp::Instant;
use evo_king::task_db::AgentRow;

fn entry(name: &str, is_dir: bool, has_soul: bool) -> FolderEntry {
    FolderEntry {
        name: Some(name.to_string()),
        path: format!("/a/{name}"),
        is_dir,
        has_soul,
    }
}

#[test]
fn folders_with_a_soul_are_agents() {
    let entries = vec![
        entry("evo-kernel-agent-update", true, true),
        entry("evo-kernel-agent-building", true, true),
        entry("evo-kernel-agent-broken", true, false),
        entry("evo-kernel-agent-file", false, true),
        entry("evo-user-agent-bot", true, true),
        FolderEntry { name: None, path: "/a/?".to_string(), is_dir: true, has_soul: true },
        entry("evo-kernel-agent-building-2", true, true),
    ];
    let names: Vec<String> = discover_kernel_agents(&entries).into_iter().map(|f| f.name).collect();
    assert_eq!(
        names,
        vec!["evo-kernel-agent-building", "evo-kernel-agent-building-2", "evo-kernel-agent-update"]
    );
    let users = discover_user_agents(&entries);
    assert_eq!(users.len(), 1);
    assert_eq!(users[0].path, "/a/evo-user-agent-bot");
    assert!(discover_agents_by_prefix(&entries, "other-").is_empty());
}

#[test]
fn the_order_of_a_listing_does_not_matter() {
    let names = ["evo-kernel-agent-b", "evo-user-agent-u", "evo-kernel-agent-a", "evo-kernel-agent-c"];
    let found = |order: [usize; 4]| -> Vec<(String, String)> {
        let entries: Vec<FolderEntry> = order.iter().map(|i| entry(names[*i], true, true)).collect();
        discover_kernel_agents(&entries).into_iter().map(|f| (f.name, f.path)).collect()
    };
    let first = found([0, 1, 2, 3]);
    assert_eq!(first.len(), 3);
    assert_eq!(first[0].0, "evo-kernel-agent-a");
    assert_eq!(found([3, 2, 1, 0]), first);
    assert_eq!(found([2, 0, 3, 1]), first);
    let entries: Vec<FolderEntry> = names.iter().map(|name| entry(name, true, true)).collect();
    for user in discover_user_agents(&entries) {
        assert!(first.iter().all(|kernel| kernel.0 != user.name));
    }
}

#[test]
fn binaries_of_kernel_agents_are_renamed() {
    assert_eq!(per_agent_binary_name("evo-kernel-agent-learning"), "evo-agent-learning");
    assert_eq!(per_agent_binary_name("evo-user-agent-my-bot"), "evo-user-agent-my-bot");
    assert_eq!(
        agent_binary_path("/e/evo-kernel-agent-update", "evo-kernel-agent-update"),
        "/e/evo-kernel-agent-update/evo-agent-update"
    );
}

#[test]
fn installed_agents_are_the_expected_ones() {
    let agents = kernel_agents();
    let roles = expected_kernel_roles();
    assert_eq!(agents.len(), roles.len());
    for (agent, role) in agents.iter().zip(&roles) {
        assert_eq!(&role_of_folder(&agent.folder), role);
        assert_eq!(per_agent_binary_name(&agent.folder), agent.binary);
        assert!(is_named_after(&agent.folder, role));
    }
    assert_eq!(role_of_folder("evo-user-agent-my-bot"), "evo-user-agent-my-bot");
    assert!(!is_named_after("evo-kernel-agent-update", "learning"));
}

#[test]
fn own_binary_comes_before_the_runner() {
    let own = spawn_runner("runner", "/e/f", "evo-kernel-agent-update", "http://k", true);
    assert_eq!(own.program, "/e/f/evo-agent-update");
    assert!(own.args.is_empty());
    assert_eq!(own.dir.as_deref(), Some("/e/f"));
    assert_eq!(own.king_address, "http://k");
    let runner = spawn_runner("runner", "/e/f", "evo-kernel-agent-update", "http://k", false);
    assert_eq!(runner.program, "runner");
    assert_eq!(runner.args, vec!["/e/f"]);
    assert!(runner.dir.is_none());
}

fn process(pid: u32, folder: &str) -> AgentProcess {
    AgentProcess { pid, agent_folder: folder.to_string() }
}

#[test]
fn processes_are_registered_once() {
    let mut registry = AgentRegistry::new();
    registry.register("a", process(1, "/e/evo-kernel-agent-learning"));
    registry.register("b", process(2, "/e/evo-kernel-agent-pre-load"));
    registry.register("a", process(3, "/e/evo-kernel-agent-learning"));
    assert_eq!(registry.pid_by_folder_hint("learning"), Some(3));
    assert_eq!(registry.pid_by_folder_hint("pre_load"), Some(2));
    assert_eq!(registry.pid_by_folder_hint("update"), None);
    let mut all = registry.all_agents();
    all.sort();
    assert_eq!(all.len(), 2);
    assert_eq!(all[0].0, "a");
    assert_eq!(all[1], ("b".to_string(), 2, "/e/evo-kernel-agent-pre-load".to_string()));
    assert_eq!(registry.unregister("a").map(|p| p.pid), Some(3));
    assert!(registry.unregister("a").is_none());
}

#[test]
fn three_attempts_with_growing_delays() {
    assert!(matches!(first_attempt(), Respawn::Try { attempt: 1, delay_secs: 5 }));
    assert!(matches!(after_attempt(1, false), Respawn::Try { attempt: 2, delay_secs: 10 }));
    assert!(matches!(after_attempt(2, false), Respawn::Try { attempt: 3, delay_secs: 20 }));
    assert!(matches!(after_attempt(3, true), Respawn::Recovered));
    match after_attempt(3, false) {
        Respawn::GiveUp { message } => assert_eq!(message, "all 3 respawn attempts failed"),
        _ => panic!("not given up"),
    }
}

fn agent(role: &str, last_heartbeat: &str) -> AgentRow {
    AgentRow {
        agent_id: role.to_string(),
        role: role.to_string(),
        status: "online".to_string(),
        last_heartbeat: last_heartbeat.to_string(),
        capabilities: "[]".to_string(),
        skills: "[]".to_string(),
        pid: 0,
        preferred_model: String::new(),
        soul_content: "soul".to_string(),
        binary_path: String::new(),
        version: "1.2".to_string(),
        first_registered_at: "t0".to_string(),
        registration_count: 2,
        crash_count: 1,
        socket_id: "s1".to_string(),
    }
}

#[test]
fn heartbeats_are_judged_by_their_age() {
    let agents = vec![
        agent("learning", "2024-01-01T00:00:00+00:00"),
        agent("building", "yesterday"),
        agent("update", "2023-12-31T23:58:30.5+00:00"),
        agent("evaluation", "2024-01-01T01:58:29+02:00"),
    ];
    let now = Instant { secs: 1_704_067_200, nanos: 0 };
    assert_eq!(format_beat(check_heartbeat(&agents, "learning", now)), "healthy");
    assert_eq!(format_beat(check_heartbeat(&agents, "building", now)), "unreadable");
    assert_eq!(format_beat(check_heartbeat(&agents, "update", now)), "healthy");
    assert_eq!(format_beat(check_heartbeat(&agents, "evaluation", now)), "silent 91");
    assert_eq!(format_beat(check_heartbeat(&agents, "pre_load", now)), "unregistered");
    assert_eq!(format_beat(judge_heartbeat(Some(90))), "healthy");
    assert_eq!(format_beat(judge_heartbeat(Some(91))), "silent 91");
    assert_eq!(format_beat(judge_heartbeat(Some(-5))), "healthy");
    assert_eq!(format_beat(judge_heartbeat(None)), "unreadable");
}

fn format_beat(beat: Heartbeat) -> String {
    match beat {
        Heartbeat::Unregistered => "unregistered".to_string(),
        Heartbeat::Unreadable => "unreadable".to_string(),
        Heartbeat::Healthy => "healthy".to_string(),
        Heartbeat::Silent { elapsed_secs } => format!("silent {elapsed_secs}"),
    }
}

#[test]
fn silent_agents_are_revived() {
    let folders = vec![
        AgentFolder {
            name: "evo-kernel-agent-learning".to_string(),
            path: "/e/evo-kernel-agent-learning".to_string(),
        },
        AgentFolder {
            name: "evo-kernel-agent-skill-manage".to_string(),
            path: "/e/evo-kernel-agent-skill-manage".to_string(),
        },
    ];
    assert!(matches!(revive(true, &folders, "learning"), Revival::Wait));
    assert!(matches!(revive(false, &folders, "update"), Revival::NoFolder));
    match revive(false, &folders, "skill_manage") {
        Revival::Start { folder } => assert_eq!(folder.path, "/e/evo-kernel-agent-skill-manage"),
        _ => panic!("not started"),
    }
    assert_eq!(revival_error("no such file"), "heartbeat watcher respawn failed: no such file");
}
