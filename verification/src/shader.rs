//! Shader stages and the program compile-and-link pipeline.
//!
//! Building a program alternates graphics-API work (create a program,
//! compile a stage, link) with decisions (fail fast on an invalid handle,
//! short-circuit on the first stage failure, release both stages once
//! the link step completes). The decisions live here as a verified
//! state machine: each
//! API outcome arrives as a [`LinkEvent`], and [`step`] answers with the
//! next state and the next [`LinkAction`] the caller must perform. The
//! unverified glue runs the loop against the real API.

use vstd::prelude::*;
use crate::err::Error;

verus! {

/// Which shader stage a piece of source text compiles into. The kind is
/// fixed when a stage is created and determines which compiler entry
/// point is used; no operation of the library ever changes it.
#[derive(Clone, Copy, Debug, PartialEq, Eq, Structural)]
pub enum StageKind {
    Vertex,
    Fragment,
}

impl StageKind {
    /// The graphics-API enumeration value selecting this stage's
    /// compiler entry point.
    pub fn gl_value(&self) -> (r: u32)
        ensures
            *self is Vertex ==> r == 0x8B31u32,
            *self is Fragment ==> r == 0x8B30u32,
    {
        match self {
            StageKind::Vertex => crate::glconst::gl_vertex_shader(),
            StageKind::Fragment => crate::glconst::gl_fragment_shader(),
        }
    }
}

/// One shader stage: an owned stage handle plus its fixed kind. A handle
/// of zero means the stage has not been compiled (or compilation failed);
/// a stage with handle zero must never be attached to a program.
pub struct Shader {
    pub id: u32,
    pub kind: StageKind,
}

impl Shader {
    /// A fresh, uncompiled stage of the given kind.
    pub fn new(kind: StageKind) -> (r: Shader)
        ensures
            r.id == 0,
            r.kind == kind,
    {
        Shader { id: 0, kind }
    }

    /// Record the outcome of compiling this stage: `created` is the
    /// handle the API allocated (zero on allocation failure), `status`
    /// the compile status it reported (zero on failure), and `log` its
    /// diagnostic text.
    pub fn compile(&mut self, created: u32, status: i32, log: String) -> (r: Result<(), Error>)
        ensures
            final(self).kind == old(self).kind,
            final(self).id == created,
            created == 0 ==> (r matches Err(e)
                && e == Error::StageCreationFailed(old(self).kind)),
            created != 0 && status != 0 ==> r is Ok,
            created != 0 && status == 0 ==> (r matches Err(e)
                && (e matches Error::StageCompilationFailed(k, d)
                    && k == old(self).kind && d@ == log@)),
    {
        self.id = created;
        if created == 0 {
            Err(Error::StageCreationFailed(self.kind))
        } else {
            match compile_check(self.kind, status, log) {
                Some(e) => Err(e),
                None => Ok(()),
            }
        }
    }
}

/// Turn a stage compile status and its diagnostic into the library's
/// error, or nothing when the status reports success.
pub fn compile_check(kind: StageKind, status: i32, log: String) -> (r: Option<Error>)
    ensures
        status != 0 ==> r is None,
        status == 0 ==> (r matches Some(e)
            && (e matches Error::StageCompilationFailed(k, d) && k == kind && d@ == log@)),
{
    if status == 0 {
        Some(Error::StageCompilationFailed(kind, log))
    } else {
        None
    }
}

/// Turn a program link status and its diagnostic into the library's
/// error, or nothing when the status reports success.
pub fn link_check(status: i32, log: String) -> (r: Option<Error>)
    ensures
        status != 0 ==> r is None,
        status == 0 ==> (r matches Some(e)
            && (e matches Error::ProgramLinkFailed(d) && d@ == log@)),
{
    if status == 0 {
        Some(Error::ProgramLinkFailed(log))
    } else {
        None
    }
}

/// Keep a compiler or linker diagnostic within a bounded buffer: the
/// first `reported_len` bytes of `buf`, or all of `buf` when the
/// reported length exceeds it. Never fails, whatever the lengths.
pub fn truncate_log(buf: &Vec<u8>, reported_len: usize) -> (r: Vec<u8>)
    ensures
        r@.len() == if reported_len <= buf@.len() { reported_len as int } else { buf@.len() as int },
        r@ == buf@.take(r@.len() as int),
{
    let n: usize = if reported_len <= buf.len() { reported_len } else { buf.len() };
    let mut out: Vec<u8> = Vec::new();
    let mut i: usize = 0;
    while i < n
        invariant
            i <= n,
            n <= buf@.len(),
            out@ =~= buf@.take(i as int),
        decreases n - i,
    {
        out.push(buf[i]);
        i = i + 1;
    }
    proof {
        assert(out@ =~= buf@.take(n as int));
    }
    out
}

/// The states of the program build pipeline. The `Await…` states say
/// which API outcome is expected next; `Linked` and `Failed` are
/// terminal.
#[derive(Debug, PartialEq, Eq)]
pub enum LinkState {
    AwaitProgram,
    AwaitVertexCreated { program: u32 },
    AwaitVertexCompiled { program: u32, vertex: u32 },
    AwaitFragmentCreated { program: u32, vertex: u32 },
    AwaitFragmentCompiled { program: u32, vertex: u32, fragment: u32 },
    AwaitLink { program: u32, vertex: u32, fragment: u32 },
    Linked { program: u32 },
    Failed { error: Error },
}

/// One outcome of a graphics-API step, reported back to the pipeline:
/// the handle a creation call returned (zero meaning failure), or a
/// status with the diagnostic text that accompanies it (status zero
/// meaning failure).
#[derive(Debug, PartialEq, Eq)]
pub enum LinkEvent {
    ProgramCreated(u32),
    StageCreated(u32),
    StageCompiled(i32, String),
    ProgramLinked(i32, String),
}

/// What the caller must do next: perform one API step, or stop because
/// the pipeline has reached a terminal state.
#[derive(Clone, Copy, Debug, PartialEq, Eq, Structural)]
pub enum LinkAction {
    CreateProgram,
    CreateStage(StageKind),
    CompileStage(StageKind, u32),
    AttachAndLink { program: u32, vertex: u32, fragment: u32 },
    DeleteStages { vertex: u32, fragment: u32 },
    Stop,
}

pub open spec fn is_terminal(s: LinkState) -> bool {
    s is Linked || s is Failed
}

/// Whether an event is the outcome the state is waiting for.
pub open spec fn event_fits(s: LinkState, e: LinkEvent) -> bool {
    match s {
        LinkState::AwaitProgram => e is ProgramCreated,
        LinkState::AwaitVertexCreated { .. } => e is StageCreated,
        LinkState::AwaitVertexCompiled { .. } => e is StageCompiled,
        LinkState::AwaitFragmentCreated { .. } => e is StageCreated,
        LinkState::AwaitFragmentCompiled { .. } => e is StageCompiled,
        LinkState::AwaitLink { .. } => e is ProgramLinked,
        LinkState::Linked { .. } => false,
        LinkState::Failed { .. } => false,
    }
}

/// The transition relation of the pipeline, one step: from a state and
/// the outcome it was waiting for, to the next state and the next action.
pub open spec fn step_spec(s: LinkState, e: LinkEvent) -> (LinkState, LinkAction)
    recommends
        event_fits(s, e),
{
    match (s, e) {
        (LinkState::AwaitProgram, LinkEvent::ProgramCreated(h)) => if h == 0 {
            (LinkState::Failed { error: Error::ProgramCreationFailed }, LinkAction::Stop)
        } else {
            (LinkState::AwaitVertexCreated { program: h }, LinkAction::CreateStage(StageKind::Vertex))
        },
        (LinkState::AwaitVertexCreated { program }, LinkEvent::StageCreated(h)) => if h == 0 {
            (LinkState::Failed { error: Error::StageCreationFailed(StageKind::Vertex) }, LinkAction::Stop)
        } else {
            (LinkState::AwaitVertexCompiled { program, vertex: h }, LinkAction::CompileStage(StageKind::Vertex, h))
        },
        (LinkState::AwaitVertexCompiled { program, vertex }, LinkEvent::StageCompiled(status, log)) => if status == 0 {
            (LinkState::Failed { error: Error::StageCompilationFailed(StageKind::Vertex, log) }, LinkAction::Stop)
        } else {
            (LinkState::AwaitFragmentCreated { program, vertex }, LinkAction::CreateStage(StageKind::Fragment))
        },
        (LinkState::AwaitFragmentCreated { program, vertex }, LinkEvent::StageCreated(h)) => if h == 0 {
            (LinkState::Failed { error: Error::StageCreationFailed(StageKind::Fragment) }, LinkAction::Stop)
        } else {
            (LinkState::AwaitFragmentCompiled { program, vertex, fragment: h }, LinkAction::CompileStage(StageKind::Fragment, h))
        },
        (LinkState::AwaitFragmentCompiled { program, vertex, fragment }, LinkEvent::StageCompiled(status, log)) => if status == 0 {
            (LinkState::Failed { error: Error::StageCompilationFailed(StageKind::Fragment, log) }, LinkAction::Stop)
        } else {
            (LinkState::AwaitLink { program, vertex, fragment }, LinkAction::AttachAndLink { program, vertex, fragment })
        },
        (LinkState::AwaitLink { program, vertex, fragment }, LinkEvent::ProgramLinked(status, log)) => if status == 0 {
            (LinkState::Failed { error: Error::ProgramLinkFailed(log) }, LinkAction::DeleteStages { vertex, fragment })
        } else {
            (LinkState::Linked { program }, LinkAction::DeleteStages { vertex, fragment })
        },
        (other, _) => (other, LinkAction::Stop),
    }
}

/// Run the pipeline from state `s` over `events[i..]`, stopping at a
/// terminal state, at an event that does not fit, or at the end of the
/// events. Yields the final state and the actions emitted along the way.
pub open spec fn run_from_at(s: LinkState, events: Seq<LinkEvent>, i: int) -> (LinkState, Seq<LinkAction>)
    decreases events.len() - i,
{
    if i < 0 || i >= events.len() || is_terminal(s) || !event_fits(s, events[i]) {
        (s, Seq::empty())
    } else {
        let (s1, a) = step_spec(s, events[i]);
        let (s2, rest) = run_from_at(s1, events, i + 1);
        (s2, seq![a] + rest)
    }
}

/// Run the whole pipeline from its initial state.
pub open spec fn run(events: Seq<LinkEvent>) -> (LinkState, Seq<LinkAction>) {
    run_from_at(LinkState::AwaitProgram, events, 0)
}

/// The initial state of the pipeline and the first action to perform.
pub fn link_start() -> (r: (LinkState, LinkAction))
    ensures
        r.0 == LinkState::AwaitProgram,
        r.1 == LinkAction::CreateProgram,
{
    (LinkState::AwaitProgram, LinkAction::CreateProgram)
}

/// Whether the pipeline has finished, successfully or not.
pub fn terminal(s: &LinkState) -> (r: bool)
    ensures
        r == is_terminal(*s),
{
    match s {
        LinkState::Linked { .. } => true,
        LinkState::Failed { .. } => true,
        _ => false,
    }
}

/// Whether `e` is the outcome that state `s` is waiting for.
pub fn fits(s: &LinkState, e: &LinkEvent) -> (r: bool)
    ensures
        r == event_fits(*s, *e),
{
    match (s, e) {
        (LinkState::AwaitProgram, LinkEvent::ProgramCreated(_)) => true,
        (LinkState::AwaitVertexCreated { .. }, LinkEvent::StageCreated(_)) => true,
        (LinkState::AwaitVertexCompiled { .. }, LinkEvent::StageCompiled(..)) => true,
        (LinkState::AwaitFragmentCreated { .. }, LinkEvent::StageCreated(_)) => true,
        (LinkState::AwaitFragmentCompiled { .. }, LinkEvent::StageCompiled(..)) => true,
        (LinkState::AwaitLink { .. }, LinkEvent::ProgramLinked(..)) => true,
        _ => false,
    }
}

/// One transition of the pipeline, executable. The event must be the
/// outcome the state is waiting for.
pub fn step(s: &LinkState, e: &LinkEvent) -> (r: (LinkState, LinkAction))
    requires
        event_fits(*s, *e),
    ensures
        r == step_spec(*s, *e),
{
    match (s, e) {
        (LinkState::AwaitProgram, LinkEvent::ProgramCreated(h)) => if *h == 0 {
            (LinkState::Failed { error: Error::ProgramCreationFailed }, LinkAction::Stop)
        } else {
            (LinkState::AwaitVertexCreated { program: *h }, LinkAction::CreateStage(StageKind::Vertex))
        },
        (LinkState::AwaitVertexCreated { program }, LinkEvent::StageCreated(h)) => if *h == 0 {
            (LinkState::Failed { error: Error::StageCreationFailed(StageKind::Vertex) }, LinkAction::Stop)
        } else {
            (LinkState::AwaitVertexCompiled { program: *program, vertex: *h }, LinkAction::CompileStage(StageKind::Vertex, *h))
        },
        (LinkState::AwaitVertexCompiled { program, vertex }, LinkEvent::StageCompiled(status, log)) => if *status == 0 {
            (LinkState::Failed { error: Error::StageCompilationFailed(StageKind::Vertex, log.clone()) }, LinkAction::Stop)
        } else {
            (LinkState::AwaitFragmentCreated { program: *program, vertex: *vertex }, LinkAction::CreateStage(StageKind::Fragment))
        },
        (LinkState::AwaitFragmentCreated { program, vertex }, LinkEvent::StageCreated(h)) => if *h == 0 {
            (LinkState::Failed { error: Error::StageCreationFailed(StageKind::Fragment) }, LinkAction::Stop)
        } else {
            (LinkState::AwaitFragmentCompiled { program: *program, vertex: *vertex, fragment: *h }, LinkAction::CompileStage(StageKind::Fragment, *h))
        },
        (LinkState::AwaitFragmentCompiled { program, vertex, fragment }, LinkEvent::StageCompiled(status, log)) => if *status == 0 {
            (LinkState::Failed { error: Error::StageCompilationFailed(StageKind::Fragment, log.clone()) }, LinkAction::Stop)
        } else {
            (LinkState::AwaitLink { program: *program, vertex: *vertex, fragment: *fragment }, LinkAction::AttachAndLink { program: *program, vertex: *vertex, fragment: *fragment })
        },
        (LinkState::AwaitLink { program, vertex, fragment }, LinkEvent::ProgramLinked(status, log)) => if *status == 0 {
            (LinkState::Failed { error: Error::ProgramLinkFailed(log.clone()) }, LinkAction::DeleteStages { vertex: *vertex, fragment: *fragment })
        } else {
            (LinkState::Linked { program: *program }, LinkAction::DeleteStages { vertex: *vertex, fragment: *fragment })
        },
        _ => {
            proof {
                assert(false);
            }
            (LinkState::AwaitProgram, LinkAction::Stop)
        },
    }
}

/// Run the pipeline over a full sequence of outcomes, collecting the
/// actions it emits. Stops at the first terminal state, at an outcome
/// that does not fit, or when the outcomes run out.
pub fn drive_link(events: &Vec<LinkEvent>) -> (r: (LinkState, Vec<LinkAction>))
    ensures
        r.0 == run(events@).0,
        r.1@ == run(events@).1,
{
    let mut s = LinkState::AwaitProgram;
    let mut actions: Vec<LinkAction> = Vec::new();
    let mut i: usize = 0;
    proof {
        assert(actions@ + run_from_at(s, events@, 0).1 =~= run(events@).1);
    }
    loop
        invariant
            i <= events@.len(),
            run(events@).0 == run_from_at(s, events@, i as int).0,
            run(events@).1 == actions@ + run_from_at(s, events@, i as int).1,
        ensures
            run(events@).0 == s,
            run(events@).1 == actions@,
        decreases events@.len() - i,
    {
        if i >= events.len() {
            proof {
                assert(actions@ + run_from_at(s, events@, i as int).1 =~= actions@);
            }
            break;
        }
        if terminal(&s) {
            proof {
                assert(actions@ + run_from_at(s, events@, i as int).1 =~= actions@);
            }
            break;
        }
        if !fits(&s, &events[i]) {
            proof {
                assert(actions@ + run_from_at(s, events@, i as int).1 =~= actions@);
            }
            break;
        }
        let ghost prev_s = s;
        let ghost prev_actions = actions@;
        let (s2, a) = step(&s, &events[i]);
        s = s2;
        actions.push(a);
        proof {
            assert(run_from_at(prev_s, events@, i as int).0 == run_from_at(s, events@, i + 1).0);
            assert(run_from_at(prev_s, events@, i as int).1 =~= seq![a] + run_from_at(
                s,
                events@,
                i + 1,
            ).1);
            assert(prev_actions + run_from_at(prev_s, events@, i as int).1 =~= actions@
                + run_from_at(s, events@, i + 1).1);
        }
        i = i + 1;
    }
    (s, actions)
}

/// Every handle the pipeline tracks is positive: the machine leaves a
/// waiting state only over a nonzero handle.
pub open spec fn state_ok(s: LinkState) -> bool {
    match s {
        LinkState::AwaitProgram => true,
        LinkState::AwaitVertexCreated { program } => program > 0,
        LinkState::AwaitVertexCompiled { program, vertex } => program > 0 && vertex > 0,
        LinkState::AwaitFragmentCreated { program, vertex } => program > 0 && vertex > 0,
        LinkState::AwaitFragmentCompiled { program, vertex, fragment } => program > 0 && vertex > 0
            && fragment > 0,
        LinkState::AwaitLink { program, vertex, fragment } => program > 0 && vertex > 0 && fragment
            > 0,
        LinkState::Linked { program } => program > 0,
        LinkState::Failed { .. } => true,
    }
}

pub proof fn lemma_run_preserves_ok(s: LinkState, es: Seq<LinkEvent>, i: int)
    requires
        state_ok(s),
    ensures
        state_ok(run_from_at(s, es, i).0),
    decreases es.len() - i,
{
    if i < 0 || i >= es.len() || is_terminal(s) || !event_fits(s, es[i]) {
    } else {
        lemma_run_preserves_ok(step_spec(s, es[i]).0, es, i + 1);
    }
}

/// Law: however a build runs, a pipeline that ends linked holds a
/// positive program handle.
pub proof fn lemma_linked_handle_positive(es: Seq<LinkEvent>)
    ensures
        run(es).0 matches LinkState::Linked { program } ==> program > 0,
{
    lemma_run_preserves_ok(LinkState::AwaitProgram, es, 0);
}

/// The handles an action carries are positive; what holds of every
/// action of a run (see [`lemma_actions_carry_valid_handles`]).
pub open spec fn action_ok(a: LinkAction) -> bool {
    match a {
        LinkAction::CompileStage(_, h) => h > 0,
        LinkAction::AttachAndLink { program, vertex, fragment } => program > 0 && vertex > 0
            && fragment > 0,
        LinkAction::DeleteStages { vertex, fragment } => vertex > 0 && fragment > 0,
        _ => true,
    }
}

pub proof fn lemma_run_actions_ok(s: LinkState, es: Seq<LinkEvent>, i: int)
    requires
        state_ok(s),
    ensures
        forall|j: int|
            0 <= j < run_from_at(s, es, i).1.len() ==> action_ok(
                #[trigger] run_from_at(s, es, i).1[j],
            ),
    decreases es.len() - i,
{
    if i < 0 || i >= es.len() || is_terminal(s) || !event_fits(s, es[i]) {
    } else {
        let (s1, a) = step_spec(s, es[i]);
        lemma_run_actions_ok(s1, es, i + 1);
        assert forall|j: int| 0 <= j < run_from_at(s, es, i).1.len() implies action_ok(
            run_from_at(s, es, i).1[j],
        ) by {
            if j > 0 {
                assert(run_from_at(s, es, i).1[j] == run_from_at(s1, es, i + 1).1[j - 1]);
            }
        }
    }
}

/// Law: a build never compiles, attaches or releases a stage through an
/// invalid handle — every action the pipeline emits carries positive
/// handles only.
pub proof fn lemma_actions_carry_valid_handles(es: Seq<LinkEvent>)
    ensures
        forall|j: int| 0 <= j < run(es).1.len() ==> action_ok(#[trigger] run(es).1[j]),
{
    lemma_run_actions_ok(LinkState::AwaitProgram, es, 0);
}

/// Law: when every pipeline step succeeds, the build ends linked with
/// the positive program handle the API allocated, after creating and
/// compiling the vertex stage, then the fragment stage, then attaching
/// and linking both, and finally releasing the two stages.
pub proof fn lemma_link_success(
    es: Seq<LinkEvent>,
    p: u32,
    v: u32,
    f: u32,
    sv: i32,
    sf: i32,
    sl: i32,
    lv: String,
    lf: String,
    ll: String,
)
    requires
        es.len() >= 6,
        es[0] == LinkEvent::ProgramCreated(p),
        p != 0,
        es[1] == LinkEvent::StageCreated(v),
        v != 0,
        es[2] == LinkEvent::StageCompiled(sv, lv),
        sv != 0,
        es[3] == LinkEvent::StageCreated(f),
        f != 0,
        es[4] == LinkEvent::StageCompiled(sf, lf),
        sf != 0,
        es[5] == LinkEvent::ProgramLinked(sl, ll),
        sl != 0,
    ensures
        run(es).0 == (LinkState::Linked { program: p }),
        p > 0,
        run(es).1 =~= seq![
            LinkAction::CreateStage(StageKind::Vertex),
            LinkAction::CompileStage(StageKind::Vertex, v),
            LinkAction::CreateStage(StageKind::Fragment),
            LinkAction::CompileStage(StageKind::Fragment, f),
            LinkAction::AttachAndLink { program: p, vertex: v, fragment: f },
            LinkAction::DeleteStages { vertex: v, fragment: f },
        ],
{
    let s1 = LinkState::AwaitVertexCreated { program: p };
    let s2 = LinkState::AwaitVertexCompiled { program: p, vertex: v };
    let s3 = LinkState::AwaitFragmentCreated { program: p, vertex: v };
    let s4 = LinkState::AwaitFragmentCompiled { program: p, vertex: v, fragment: f };
    let s5 = LinkState::AwaitLink { program: p, vertex: v, fragment: f };
    let s6 = LinkState::Linked { program: p };
    assert(run_from_at(s6, es, 6).1 =~= Seq::<LinkAction>::empty());
    assert(run_from_at(s5, es, 5).0 == s6);
    assert(run_from_at(s5, es, 5).1 =~= seq![
        LinkAction::DeleteStages { vertex: v, fragment: f },
    ]);
    assert(run_from_at(s4, es, 4).0 == s6);
    assert(run_from_at(s4, es, 4).1 =~= seq![
        LinkAction::AttachAndLink { program: p, vertex: v, fragment: f },
        LinkAction::DeleteStages { vertex: v, fragment: f },
    ]);
    assert(run_from_at(s3, es, 3).0 == s6);
    assert(run_from_at(s3, es, 3).1 =~= seq![
        LinkAction::CompileStage(StageKind::Fragment, f),
        LinkAction::AttachAndLink { program: p, vertex: v, fragment: f },
        LinkAction::DeleteStages { vertex: v, fragment: f },
    ]);
    assert(run_from_at(s2, es, 2).0 == s6);
    assert(run_from_at(s2, es, 2).1 =~= seq![
        LinkAction::CreateStage(StageKind::Fragment),
        LinkAction::CompileStage(StageKind::Fragment, f),
        LinkAction::AttachAndLink { program: p, vertex: v, fragment: f },
        LinkAction::DeleteStages { vertex: v, fragment: f },
    ]);
    assert(run_from_at(s1, es, 1).0 == s6);
    assert(run_from_at(s1, es, 1).1 =~= seq![
        LinkAction::CompileStage(StageKind::Vertex, v),
        LinkAction::CreateStage(StageKind::Fragment),
        LinkAction::CompileStage(StageKind::Fragment, f),
        LinkAction::AttachAndLink { program: p, vertex: v, fragment: f },
        LinkAction::DeleteStages { vertex: v, fragment: f },
    ]);
    assert(run(es).0 == s6);
    assert(run(es).1 =~= seq![
        LinkAction::CreateStage(StageKind::Vertex),
        LinkAction::CompileStage(StageKind::Vertex, v),
        LinkAction::CreateStage(StageKind::Fragment),
        LinkAction::CompileStage(StageKind::Fragment, f),
        LinkAction::AttachAndLink { program: p, vertex: v, fragment: f },
        LinkAction::DeleteStages { vertex: v, fragment: f },
    ]);
}

/// Law: when both stages compile but the link step fails, the build
/// fails with the linker's diagnostic — and both stage resources are
/// still released: the link step owns the stages until it completes,
/// success or failure.
pub proof fn lemma_link_failure_releases_stages(
    es: Seq<LinkEvent>,
    p: u32,
    v: u32,
    f: u32,
    sv: i32,
    sf: i32,
    lv: String,
    lf: String,
    d: String,
)
    requires
        es.len() >= 6,
        es[0] == LinkEvent::ProgramCreated(p),
        p != 0,
        es[1] == LinkEvent::StageCreated(v),
        v != 0,
        es[2] == LinkEvent::StageCompiled(sv, lv),
        sv != 0,
        es[3] == LinkEvent::StageCreated(f),
        f != 0,
        es[4] == LinkEvent::StageCompiled(sf, lf),
        sf != 0,
        es[5] == LinkEvent::ProgramLinked(0, d),
    ensures
        run(es).0 == (LinkState::Failed { error: Error::ProgramLinkFailed(d) }),
        run(es).1 =~= seq![
            LinkAction::CreateStage(StageKind::Vertex),
            LinkAction::CompileStage(StageKind::Vertex, v),
            LinkAction::CreateStage(StageKind::Fragment),
            LinkAction::CompileStage(StageKind::Fragment, f),
            LinkAction::AttachAndLink { program: p, vertex: v, fragment: f },
            LinkAction::DeleteStages { vertex: v, fragment: f },
        ],
{
    let s1 = LinkState::AwaitVertexCreated { program: p };
    let s2 = LinkState::AwaitVertexCompiled { program: p, vertex: v };
    let s3 = LinkState::AwaitFragmentCreated { program: p, vertex: v };
    let s4 = LinkState::AwaitFragmentCompiled { program: p, vertex: v, fragment: f };
    let s5 = LinkState::AwaitLink { program: p, vertex: v, fragment: f };
    let s6 = LinkState::Failed { error: Error::ProgramLinkFailed(d) };
    assert(run_from_at(s6, es, 6).1 =~= Seq::<LinkAction>::empty());
    assert(run_from_at(s5, es, 5).0 == s6);
    assert(run_from_at(s5, es, 5).1 =~= seq![
        LinkAction::DeleteStages { vertex: v, fragment: f },
    ]);
    assert(run_from_at(s4, es, 4).0 == s6);
    assert(run_from_at(s4, es, 4).1 =~= seq![
        LinkAction::AttachAndLink { program: p, vertex: v, fragment: f },
        LinkAction::DeleteStages { vertex: v, fragment: f },
    ]);
    assert(run_from_at(s3, es, 3).0 == s6);
    assert(run_from_at(s3, es, 3).1 =~= seq![
        LinkAction::CompileStage(StageKind::Fragment, f),
        LinkAction::AttachAndLink { program: p, vertex: v, fragment: f },
        LinkAction::DeleteStages { vertex: v, fragment: f },
    ]);
    assert(run_from_at(s2, es, 2).0 == s6);
    assert(run_from_at(s2, es, 2).1 =~= seq![
        LinkAction::CreateStage(StageKind::Fragment),
        LinkAction::CompileStage(StageKind::Fragment, f),
        LinkAction::AttachAndLink { program: p, vertex: v, fragment: f },
        LinkAction::DeleteStages { vertex: v, fragment: f },
    ]);
    assert(run_from_at(s1, es, 1).0 == s6);
    assert(run_from_at(s1, es, 1).1 =~= seq![
        LinkAction::CompileStage(StageKind::Vertex, v),
        LinkAction::CreateStage(StageKind::Fragment),
        LinkAction::CompileStage(StageKind::Fragment, f),
        LinkAction::AttachAndLink { program: p, vertex: v, fragment: f },
        LinkAction::DeleteStages { vertex: v, fragment: f },
    ]);
    assert(run(es).0 == s6);
    assert(run(es).1 =~= seq![
        LinkAction::CreateStage(StageKind::Vertex),
        LinkAction::CompileStage(StageKind::Vertex, v),
        LinkAction::CreateStage(StageKind::Fragment),
        LinkAction::CompileStage(StageKind::Fragment, f),
        LinkAction::AttachAndLink { program: p, vertex: v, fragment: f },
        LinkAction::DeleteStages { vertex: v, fragment: f },
    ]);
}

/// Law: when the vertex stage fails to compile, the build fails with
/// that stage's diagnostic at kind vertex, and the fragment stage is
/// never created nor compiled — whatever outcomes would have followed.
pub proof fn lemma_vertex_failure_short_circuits(es: Seq<LinkEvent>, p: u32, v: u32, d: String)
    requires
        es.len() >= 3,
        es[0] == LinkEvent::ProgramCreated(p),
        p != 0,
        es[1] == LinkEvent::StageCreated(v),
        v != 0,
        es[2] == LinkEvent::StageCompiled(0, d),
    ensures
        run(es).0 == (LinkState::Failed {
            error: Error::StageCompilationFailed(StageKind::Vertex, d),
        }),
        run(es).1 =~= seq![
            LinkAction::CreateStage(StageKind::Vertex),
            LinkAction::CompileStage(StageKind::Vertex, v),
            LinkAction::Stop,
        ],
        forall|j: int|
            0 <= j < run(es).1.len() ==> run(es).1[j] != LinkAction::CreateStage(
                StageKind::Fragment,
            ) && !(run(es).1[j] matches LinkAction::CompileStage(StageKind::Fragment, _)),
{
    let s1 = LinkState::AwaitVertexCreated { program: p };
    let s2 = LinkState::AwaitVertexCompiled { program: p, vertex: v };
    let s3 = LinkState::Failed { error: Error::StageCompilationFailed(StageKind::Vertex, d) };
    assert(run_from_at(s3, es, 3).1 =~= Seq::<LinkAction>::empty());
    assert(run_from_at(s2, es, 2).0 == s3);
    assert(run_from_at(s2, es, 2).1 =~= seq![LinkAction::Stop]);
    assert(run_from_at(s1, es, 1).0 == s3);
    assert(run_from_at(s1, es, 1).1 =~= seq![
        LinkAction::CompileStage(StageKind::Vertex, v),
        LinkAction::Stop,
    ]);
    assert(run(es).0 == s3);
    assert(run(es).1 =~= seq![
        LinkAction::CreateStage(StageKind::Vertex),
        LinkAction::CompileStage(StageKind::Vertex, v),
        LinkAction::Stop,
    ]);
}

/// Law: with a vertex stage that compiled and a fragment stage that
/// fails, the build fails with the fragment diagnostic at kind
/// fragment, and the actions show the vertex stage compiled first.
pub proof fn lemma_fragment_failure_after_vertex(
    es: Seq<LinkEvent>,
    p: u32,
    v: u32,
    f: u32,
    sv: i32,
    lv: String,
    d: String,
)
    requires
        es.len() >= 5,
        es[0] == LinkEvent::ProgramCreated(p),
        p != 0,
        es[1] == LinkEvent::StageCreated(v),
        v != 0,
        es[2] == LinkEvent::StageCompiled(sv, lv),
        sv != 0,
        es[3] == LinkEvent::StageCreated(f),
        f != 0,
        es[4] == LinkEvent::StageCompiled(0, d),
    ensures
        run(es).0 == (LinkState::Failed {
            error: Error::StageCompilationFailed(StageKind::Fragment, d),
        }),
        run(es).1 =~= seq![
            LinkAction::CreateStage(StageKind::Vertex),
            LinkAction::CompileStage(StageKind::Vertex, v),
            LinkAction::CreateStage(StageKind::Fragment),
            LinkAction::CompileStage(StageKind::Fragment, f),
            LinkAction::Stop,
        ],
        run(es).1[1] == LinkAction::CompileStage(StageKind::Vertex, v),
        run(es).1[3] == LinkAction::CompileStage(StageKind::Fragment, f),
{
    let s1 = LinkState::AwaitVertexCreated { program: p };
    let s2 = LinkState::AwaitVertexCompiled { program: p, vertex: v };
    let s3 = LinkState::AwaitFragmentCreated { program: p, vertex: v };
    let s4 = LinkState::AwaitFragmentCompiled { program: p, vertex: v, fragment: f };
    let s5 = LinkState::Failed { error: Error::StageCompilationFailed(StageKind::Fragment, d) };
    assert(run_from_at(s5, es, 5).1 =~= Seq::<LinkAction>::empty());
    assert(run_from_at(s4, es, 4).0 == s5);
    assert(run_from_at(s4, es, 4).1 =~= seq![LinkAction::Stop]);
    assert(run_from_at(s3, es, 3).0 == s5);
    assert(run_from_at(s3, es, 3).1 =~= seq![
        LinkAction::CompileStage(StageKind::Fragment, f),
        LinkAction::Stop,
    ]);
    assert(run_from_at(s2, es, 2).0 == s5);
    assert(run_from_at(s2, es, 2).1 =~= seq![
        LinkAction::CreateStage(StageKind::Fragment),
        LinkAction::CompileStage(StageKind::Fragment, f),
        LinkAction::Stop,
    ]);
    assert(run_from_at(s1, es, 1).0 == s5);
    assert(run_from_at(s1, es, 1).1 =~= seq![
        LinkAction::CompileStage(StageKind::Vertex, v),
        LinkAction::CreateStage(StageKind::Fragment),
        LinkAction::CompileStage(StageKind::Fragment, f),
        LinkAction::Stop,
    ]);
    assert(run(es).0 == s5);
    assert(run(es).1 =~= seq![
        LinkAction::CreateStage(StageKind::Vertex),
        LinkAction::CompileStage(StageKind::Vertex, v),
        LinkAction::CreateStage(StageKind::Fragment),
        LinkAction::CompileStage(StageKind::Fragment, f),
        LinkAction::Stop,
    ]);
}

/// A shader program: an owned program handle plus the two stages it is
/// built from. The handle is zero until a build succeeds, and becomes
/// the linked program's positive handle then; a failed build never
/// leaves a "linked but broken" handle behind.
pub struct Program {
    pub id: u32,
    pub vertex: Shader,
    pub fragment: Shader,
}

impl Program {
    /// A fresh, unlinked program with one uncompiled stage of each kind.
    pub fn new() -> (r: Program)
        ensures
            r.id == 0,
            r.vertex.id == 0,
            r.vertex.kind == StageKind::Vertex,
            r.fragment.id == 0,
            r.fragment.kind == StageKind::Fragment,
    {
        Program {
            id: 0,
            vertex: Shader::new(StageKind::Vertex),
            fragment: Shader::new(StageKind::Fragment),
        }
    }

    /// Decide the outcome of a build from the sequence of API outcomes:
    /// on success the program takes the linked handle, on failure the
    /// most specific step's error is returned and the handle is left
    /// untouched. The outcomes must drive the pipeline to completion.
    pub fn link(&mut self, events: &Vec<LinkEvent>) -> (r: Result<(), Error>)
        requires
            is_terminal(run(events@).0),
        ensures
            final(self).vertex == old(self).vertex,
            final(self).fragment == old(self).fragment,
            (run(events@).0 matches LinkState::Linked { program } ==> (r is Ok
                && final(self).id == program && program > 0)),
            (run(events@).0 matches LinkState::Failed { error } ==> (r matches Err(e)
                && e == error && final(self).id == old(self).id)),
    {
        proof {
            lemma_linked_handle_positive(events@);
        }
        let (st, _actions) = drive_link(events);
        match st {
            LinkState::Linked { program } => {
                self.id = program;
                Ok(())
            },
            LinkState::Failed { error } => Err(error),
            _ => {
                proof {
                    assert(false);
                }
                Err(Error::ProgramCreationFailed)
            },
        }
    }

    /// The lookup-then-write rule for every uniform-setting operation:
    /// given the location the API reported for `name`, allow the write
    /// only when the location exists; a negative location means the
    /// uniform was not found and is an error, never a silent write.
    pub fn uniform_check(&self, name: String, location: i32) -> (r: Result<i32, Error>)
        ensures
            location >= 0 ==> r == Ok::<i32, Error>(location),
            location < 0 ==> (r matches Err(e)
                && (e matches Error::UniformNotFound(n) && n@ == name@)),
    {
        if location >= 0 {
            Ok(location)
        } else {
            Err(Error::UniformNotFound(name))
        }
    }
}

} // verus!
