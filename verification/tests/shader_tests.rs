use glres::err::Error;
use glres::shader::{
    compile_check, drive_link, fits, link_check, link_start, step, terminal, truncate_log,
    LinkAction, LinkEvent, LinkState, Program, Shader, StageKind,
};

fn ok(status: i32) -> LinkEvent {
    LinkEvent::StageCompiled(status, String::new())
}

#[test]
fn stage_kind_gl_values_match_api() {
    assert_eq!(StageKind::Vertex.gl_value(), gl33::GL_VERTEX_SHADER.0);
    assert_eq!(StageKind::Fragment.gl_value(), gl33::GL_FRAGMENT_SHADER.0);
}

#[test]
fn new_program_is_unlinked_with_fresh_stages() {
    let p = Program::new();
    assert_eq!(p.id, 0);
    assert_eq!(p.vertex.id, 0);
    assert_eq!(p.vertex.kind, StageKind::Vertex);
    assert_eq!(p.fragment.id, 0);
    assert_eq!(p.fragment.kind, StageKind::Fragment);
}

#[test]
fn link_start_awaits_program_creation() {
    let (s, a) = link_start();
    assert_eq!(s, LinkState::AwaitProgram);
    assert_eq!(a, LinkAction::CreateProgram);
    assert!(!terminal(&s));
    assert!(fits(&s, &LinkEvent::ProgramCreated(1)));
    assert!(!fits(&s, &LinkEvent::StageCreated(1)));
}

#[test]
fn successful_link_takes_positive_handle() {
    let events = vec![
        LinkEvent::ProgramCreated(7),
        LinkEvent::StageCreated(2),
        ok(1),
        LinkEvent::StageCreated(3),
        ok(1),
        LinkEvent::ProgramLinked(1, String::new()),
    ];
    let mut p = Program::new();
    assert_eq!(p.link(&events), Ok(()));
    assert_eq!(p.id, 7);
}

#[test]
fn successful_link_emits_every_action_in_order() {
    let events = vec![
        LinkEvent::ProgramCreated(7),
        LinkEvent::StageCreated(2),
        ok(1),
        LinkEvent::StageCreated(3),
        ok(1),
        LinkEvent::ProgramLinked(1, String::new()),
    ];
    let (state, actions) = drive_link(&events);
    assert_eq!(state, LinkState::Linked { program: 7 });
    assert_eq!(
        actions,
        vec![
            LinkAction::CreateStage(StageKind::Vertex),
            LinkAction::CompileStage(StageKind::Vertex, 2),
            LinkAction::CreateStage(StageKind::Fragment),
            LinkAction::CompileStage(StageKind::Fragment, 3),
            LinkAction::AttachAndLink { program: 7, vertex: 2, fragment: 3 },
            LinkAction::DeleteStages { vertex: 2, fragment: 3 },
        ]
    );
}

#[test]
fn program_creation_failure_fails_fast() {
    let events = vec![LinkEvent::ProgramCreated(0)];
    let mut p = Program::new();
    assert_eq!(p.link(&events), Err(Error::ProgramCreationFailed));
    assert_eq!(p.id, 0);
}

#[test]
fn stage_creation_failure_carries_kind() {
    let events = vec![LinkEvent::ProgramCreated(1), LinkEvent::StageCreated(0)];
    let mut p = Program::new();
    assert_eq!(p.link(&events), Err(Error::StageCreationFailed(StageKind::Vertex)));
}

#[test]
fn vertex_failure_skips_fragment_path() {
    let events = vec![
        LinkEvent::ProgramCreated(1),
        LinkEvent::StageCreated(2),
        LinkEvent::StageCompiled(0, "syntax error".to_string()),
    ];
    let (state, actions) = drive_link(&events);
    assert_eq!(
        state,
        LinkState::Failed {
            error: Error::StageCompilationFailed(StageKind::Vertex, "syntax error".to_string()),
        }
    );
    // The fragment path is never touched: no fragment action was emitted.
    let fragment_touches = actions
        .iter()
        .filter(|a| {
            matches!(a, LinkAction::CreateStage(StageKind::Fragment))
                || matches!(a, LinkAction::CompileStage(StageKind::Fragment, _))
        })
        .count();
    assert_eq!(fragment_touches, 0);
    assert_eq!(
        actions,
        vec![
            LinkAction::CreateStage(StageKind::Vertex),
            LinkAction::CompileStage(StageKind::Vertex, 2),
            LinkAction::Stop,
        ]
    );
}

#[test]
fn fragment_failure_comes_after_vertex_success() {
    let events = vec![
        LinkEvent::ProgramCreated(1),
        LinkEvent::StageCreated(2),
        ok(1),
        LinkEvent::StageCreated(3),
        LinkEvent::StageCompiled(0, "bad fragment".to_string()),
    ];
    let (state, actions) = drive_link(&events);
    assert_eq!(
        state,
        LinkState::Failed {
            error: Error::StageCompilationFailed(StageKind::Fragment, "bad fragment".to_string()),
        }
    );
    assert_eq!(actions[1], LinkAction::CompileStage(StageKind::Vertex, 2));
    assert_eq!(actions[3], LinkAction::CompileStage(StageKind::Fragment, 3));
    let mut p = Program::new();
    let r = p.link(&events);
    assert_eq!(
        r,
        Err(Error::StageCompilationFailed(StageKind::Fragment, "bad fragment".to_string()))
    );
}

#[test]
fn link_failure_carries_linker_diagnostic() {
    let events = vec![
        LinkEvent::ProgramCreated(1),
        LinkEvent::StageCreated(2),
        ok(1),
        LinkEvent::StageCreated(3),
        ok(1),
        LinkEvent::ProgramLinked(0, "unresolved varying".to_string()),
    ];
    let mut p = Program::new();
    assert_eq!(p.link(&events), Err(Error::ProgramLinkFailed("unresolved varying".to_string())));
    assert_eq!(p.id, 0);
}

#[test]
fn link_failure_still_releases_both_stages() {
    // The link step owns the stages until it completes, success or
    // failure: a failing link still ends with their release.
    let events = vec![
        LinkEvent::ProgramCreated(1),
        LinkEvent::StageCreated(2),
        ok(1),
        LinkEvent::StageCreated(3),
        ok(1),
        LinkEvent::ProgramLinked(0, "unresolved varying".to_string()),
    ];
    let (state, actions) = drive_link(&events);
    assert_eq!(
        state,
        LinkState::Failed { error: Error::ProgramLinkFailed("unresolved varying".to_string()) }
    );
    assert_eq!(actions.last(), Some(&LinkAction::DeleteStages { vertex: 2, fragment: 3 }));
}

#[test]
fn step_walks_one_transition_at_a_time() {
    let (s0, _) = link_start();
    let (s1, a1) = step(&s0, &LinkEvent::ProgramCreated(5));
    assert_eq!(s1, LinkState::AwaitVertexCreated { program: 5 });
    assert_eq!(a1, LinkAction::CreateStage(StageKind::Vertex));
    let (s2, a2) = step(&s1, &LinkEvent::StageCreated(9));
    assert_eq!(s2, LinkState::AwaitVertexCompiled { program: 5, vertex: 9 });
    assert_eq!(a2, LinkAction::CompileStage(StageKind::Vertex, 9));
}

#[test]
fn shader_compile_records_outcomes() {
    let mut s = Shader::new(StageKind::Vertex);
    assert_eq!(s.compile(0, 1, String::new()), Err(Error::StageCreationFailed(StageKind::Vertex)));
    assert_eq!(s.id, 0);
    assert_eq!(s.compile(4, 1, String::new()), Ok(()));
    assert_eq!(s.id, 4);
    assert_eq!(
        s.compile(4, 0, "missing ;".to_string()),
        Err(Error::StageCompilationFailed(StageKind::Vertex, "missing ;".to_string()))
    );
    assert_eq!(s.kind, StageKind::Vertex);
}

#[test]
fn compile_check_maps_status_to_error() {
    assert_eq!(compile_check(StageKind::Fragment, 1, String::new()), None);
    assert_eq!(
        compile_check(StageKind::Fragment, 0, "oops".to_string()),
        Some(Error::StageCompilationFailed(StageKind::Fragment, "oops".to_string()))
    );
}

#[test]
fn link_check_maps_status_to_error() {
    assert_eq!(link_check(1, String::new()), None);
    assert_eq!(
        link_check(0, "link oops".to_string()),
        Some(Error::ProgramLinkFailed("link oops".to_string()))
    );
}

#[test]
fn truncate_log_respects_reported_length() {
    let buf: Vec<u8> = vec![b'a', b'b', b'c', b'd'];
    assert_eq!(truncate_log(&buf, 2), vec![b'a', b'b']);
    assert_eq!(truncate_log(&buf, 4), buf);
    // A reported length beyond the buffer truncates instead of failing.
    assert_eq!(truncate_log(&buf, 4096), buf);
    assert_eq!(truncate_log(&buf, 0), Vec::<u8>::new());
}

#[test]
fn uniform_lookup_failure_is_reported_not_written() {
    let p = Program::new();
    assert_eq!(p.uniform_check("texture1".to_string(), 3), Ok(3));
    assert_eq!(
        p.uniform_check("missing".to_string(), -1),
        Err(Error::UniformNotFound("missing".to_string()))
    );
}
