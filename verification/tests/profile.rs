use std::path::PathBuf;

use aqbot_agent_runtime::location::Location;
use aqbot_agent_runtime::payload::UsdCost;
use aqbot_agent_runtime::profile::{
    agent_ensure_workspace, compat_session, default_workspace_root, get_compat_session,
    get_or_create_profile, map_run_status, update_profile_from_legacy_inputs, AgentProfile,
    CompatAction, CompatInput, LatestRun, ProfileAction, ProfileInput, WorkspaceAction,
    WorkspaceInput,
};
use aqbot_agent_runtime::session::AgentSession;

fn text(s: &str) -> String {
    s.to_string()
}

fn profile() -> AgentProfile {
    AgentProfile {
        id: text("p1"),
        conversation_id: text("conv"),
        workspace_root: Some(text("/w")),
        permission_mode: text("default"),
        created_at: text("c"),
        updated_at: text("u"),
    }
}

fn latest(status: &str, finished_at: Option<&str>) -> LatestRun {
    LatestRun {
        status: text(status),
        sdk_context_json: Some(text("ctx")),
        started_at: text("start"),
        finished_at: finished_at.map(text),
    }
}

#[test]
fn the_default_workspace_is_named_after_the_conversation() {
    let home = PathBuf::from("/home/me/.aqbot");
    match default_workspace_root(&home, "conv") {
        Location::Below { base, steps } => {
            assert_eq!(base, &home);
            assert_eq!(steps, vec!["workspace", "conv"]);
        }
        Location::Explicit(_) => panic!("no base"),
    }
}

#[test]
fn a_workspace_is_made_and_its_path_told() {
    let home = PathBuf::from("/home/me/.aqbot");
    let next = |input: WorkspaceInput| agent_ensure_workspace(&home, "conv", input);
    assert!(matches!(
        next(WorkspaceInput::Requested),
        WorkspaceAction::Create(Location::Below { base, steps })
            if *base == home && steps == vec!["workspace", "conv"]
    ));
    assert!(matches!(
        next(WorkspaceInput::Created(Ok(()))),
        WorkspaceAction::ShowPath(Location::Below { base, steps })
            if *base == home && steps == vec!["workspace", "conv"]
    ));
    assert!(matches!(
        next(WorkspaceInput::PathShown(Some(text("/w")))),
        WorkspaceAction::Finish(Ok(path)) if path == "/w"
    ));
    assert!(matches!(
        next(WorkspaceInput::PathShown(None)),
        WorkspaceAction::Finish(Err(message)) if message == "Invalid path encoding"
    ));
    assert!(matches!(
        next(WorkspaceInput::Created(Err(text("denied")))),
        WorkspaceAction::Finish(Err(message)) if message == "Failed to create workspace: denied"
    ));
}

#[test]
fn profiles_come_from_the_store_then_the_session_then_the_defaults() {
    let home = PathBuf::from("/h");
    let next = |input: ProfileInput<u8>| get_or_create_profile(&home, "conv", input);
    assert!(matches!(
        next(ProfileInput::ProfileLoaded(Ok(Some(1)))),
        ProfileAction::Finish(Ok(1))
    ));
    assert!(matches!(
        next(ProfileInput::ProfileLoaded(Err(text("db")))),
        ProfileAction::Finish(Err(e)) if e == "db"
    ));
    assert!(matches!(
        next(ProfileInput::ProfileLoaded(Ok(None))),
        ProfileAction::LoadSession
    ));
    let session = AgentSession {
        id: text("s1"),
        conversation_id: text("conv"),
        cwd: None,
        permission_mode: text("default"),
        runtime_status: text("idle"),
        sdk_context_json: None,
        sdk_context_backup_json: None,
        total_tokens: 0,
        total_cost_usd: UsdCost { bits: 0 },
        created_at: text(""),
        updated_at: text(""),
    };
    assert!(matches!(
        next(ProfileInput::SessionLoaded(Ok(Some(session)))),
        ProfileAction::FromSession(s) if s.id == "s1"
    ));
    assert!(matches!(
        next(ProfileInput::SessionLoaded(Err(text("db")))),
        ProfileAction::Finish(Err(e)) if e == "db"
    ));
    match next(ProfileInput::SessionLoaded(Ok(None))) {
        ProfileAction::Create { workspace, permission_mode, runtime } => {
            assert!(matches!(
                workspace,
                Location::Below { steps, .. } if steps == vec!["workspace", "conv"]
            ));
            assert_eq!(permission_mode, "default");
            assert_eq!(runtime, "sdk");
        }
        _ => panic!("no new profile"),
    }
    assert!(matches!(
        next(ProfileInput::ProfileStored(Err(text("db")))),
        ProfileAction::Finish(Err(e)) if e == "db"
    ));
    assert!(matches!(
        next(ProfileInput::ProfileStored(Ok(2))),
        ProfileAction::Finish(Ok(2))
    ));
}

#[test]
fn a_stored_profile_updates_the_session_too() {
    assert_eq!(update_profile_from_legacy_inputs(Ok(3)), (true, Ok(3)));
    let failed: Result<u8, String> = Err(text("db"));
    assert_eq!(update_profile_from_legacy_inputs(failed), (false, Err(text("db"))));
}

#[test]
fn run_states_are_shown_as_session_states() {
    for status in ["queued", "starting", "running"] {
        assert_eq!(map_run_status(status), "running");
    }
    assert_eq!(map_run_status("waiting_approval"), "waiting_approval");
    assert_eq!(map_run_status("waiting_input"), "waiting_approval");
    assert_eq!(map_run_status("failed"), "error");
    assert_eq!(map_run_status("completed"), "completed");
    assert_eq!(map_run_status("cancelled"), "idle");
    assert_eq!(map_run_status("odd"), "odd");
    assert_eq!(map_run_status(&map_run_status("failed")), "error");
}

#[test]
fn a_session_shows_the_profile_and_its_latest_run() {
    let session = compat_session(
        profile(),
        Some(latest("running", None)),
        i64::MAX,
        UsdCost { bits: 1.5f64.to_bits() },
    );
    assert_eq!(session.id, "p1");
    assert_eq!(session.conversation_id, "conv");
    assert_eq!(session.cwd, Some(text("/w")));
    assert_eq!(session.permission_mode, "default");
    assert_eq!(session.runtime_status, "running");
    assert_eq!(session.sdk_context_json, Some(text("ctx")));
    assert_eq!(session.sdk_context_backup_json, None);
    assert_eq!(session.total_tokens, i32::MAX);
    assert_eq!(f64::from_bits(session.total_cost_usd.bits), 1.5);
    assert_eq!(session.created_at, "c");
    assert_eq!(session.updated_at, "start");
    let done = compat_session(profile(), Some(latest("completed", Some("end"))), -5, UsdCost { bits: 0 });
    assert_eq!(done.updated_at, "end");
    assert_eq!(done.total_tokens, -5);
    let idle = compat_session(profile(), None, i64::MIN, UsdCost { bits: 0 });
    assert_eq!(idle.runtime_status, "idle");
    assert_eq!(idle.sdk_context_json, None);
    assert_eq!(idle.updated_at, "u");
    assert_eq!(idle.total_tokens, i32::MIN);
}

#[test]
fn a_missing_profile_is_no_error_of_the_session() {
    assert!(matches!(
        get_compat_session(CompatInput::ProfileFound(Err(text("db")))),
        CompatAction::Finish(Ok(None))
    ));
    assert!(matches!(
        get_compat_session(CompatInput::ProfileFound(Ok(profile()))),
        CompatAction::LoadRun(p) if p.id == "p1"
    ));
    assert!(matches!(
        get_compat_session(CompatInput::RunLoaded { profile: profile(), run: Err(text("r")) }),
        CompatAction::Finish(Err(e)) if e == "r"
    ));
    assert!(matches!(
        get_compat_session(CompatInput::RunLoaded { profile: profile(), run: Ok(None) }),
        CompatAction::LoadUsage { run: None, .. }
    ));
    assert!(matches!(
        get_compat_session(CompatInput::UsageLoaded {
            profile: profile(),
            run: None,
            usage: Err(text("u")),
        }),
        CompatAction::Finish(Err(e)) if e == "u"
    ));
    assert!(matches!(
        get_compat_session(CompatInput::UsageLoaded {
            profile: profile(),
            run: Some(latest("failed", None)),
            usage: Ok((12, UsdCost { bits: 0 })),
        }),
        CompatAction::Finish(Ok(Some(s))) if s.runtime_status == "error" && s.total_tokens == 12
    ));
}
