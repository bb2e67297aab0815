//! Decisions of one group's job executor. The driver performs each action
//! (copying a sidecar, spawning or killing the transcoder, sending a progress
//! message) and feeds back what happened, one event at a time.
use vstd::prelude::*;

use crate::progress::tracker::Stage;
use crate::progress::types::{Message, MessageView};

verus! {

/// External transcoder processes that one group may run at once.
pub const MEDIA_CONCURRENCY: usize = 2;

#[derive(Debug, Clone, Copy, PartialEq, Eq, Structural)]
pub enum Phase {
    /// Waiting for the output directories.
    Setup,
    /// Copying sidecar files, one at a time.
    Copying,
    /// Transcoding media files, a bounded number at a time.
    Transcoding,
    /// Nothing more will be done.
    Finished,
}

/// What happened since the last step.
pub enum RunEvent {
    /// The output directory and its sidecar subdirectory were (or were not)
    /// created.
    DirsReady(bool),
    /// The sidecar last asked for was copied, or already present (`true`), or
    /// could not be copied (`false`).
    SidecarCopied(bool),
    /// The transcoder for media file `index` exited; on failure, with what it
    /// wrote to stderr.
    MediaExited { index: usize, success: bool, stderr: String },
    /// The run's stop signal was raised.
    StopRaised,
}

/// What the driver does next, in order.
pub enum RunAction {
    CopySidecar(usize),
    StartMedia(usize),
    Report(Message),
    /// Kill every transcoder of this group that is still running.
    KillRunning,
    /// The group is over.
    Finish,
}

pub enum EventView {
    DirsReady(bool),
    SidecarCopied(bool),
    MediaExited { index: nat, success: bool },
    StopRaised,
}

impl View for RunEvent {
    type V = EventView;

    open spec fn view(&self) -> EventView {
        match self {
            RunEvent::DirsReady(ok) => EventView::DirsReady(*ok),
            RunEvent::SidecarCopied(ok) => EventView::SidecarCopied(*ok),
            RunEvent::MediaExited { index, success, .. } => EventView::MediaExited {
                index: *index as nat,
                success: *success,
            },
            RunEvent::StopRaised => EventView::StopRaised,
        }
    }
}

pub enum ActionView {
    CopySidecar(nat),
    StartMedia(nat),
    Report(MessageView),
    KillRunning,
    Finish,
}

impl View for RunAction {
    type V = ActionView;

    open spec fn view(&self) -> ActionView {
        match self {
            RunAction::CopySidecar(i) => ActionView::CopySidecar(*i as nat),
            RunAction::StartMedia(i) => ActionView::StartMedia(*i as nat),
            RunAction::Report(m) => ActionView::Report(m@),
            RunAction::KillRunning => ActionView::KillRunning,
            RunAction::Finish => ActionView::Finish,
        }
    }
}

pub open spec fn action_views(v: Seq<RunAction>) -> Seq<ActionView> {
    v.map_values(|a: RunAction| a@)
}

/// The executor of one group.
pub struct GroupRun {
    folder: String,
    sidecars: Vec<String>,
    media: Vec<String>,
    phase: Phase,
    copied: usize,
    next: usize,
    running: usize,
    completed: usize,
    failed: usize,
}

/// Mathematical view of a [`GroupRun`].
pub struct RunView {
    pub folder: Seq<char>,
    pub sidecars: Seq<Seq<char>>,
    pub media: Seq<Seq<char>>,
    pub phase: Phase,
    /// Sidecars copied so far.
    pub copied: nat,
    /// Media files started so far; the next one to start.
    pub next: nat,
    /// Transcoders running now.
    pub running: nat,
    /// Media files transcoded successfully.
    pub completed: nat,
    /// Media files whose transcoder failed.
    pub failed: nat,
}

pub open spec fn name_texts(v: Seq<String>) -> Seq<Seq<char>> {
    v.map_values(|s: String| s@)
}

impl View for GroupRun {
    type V = RunView;

    closed spec fn view(&self) -> RunView {
        RunView {
            folder: self.folder@,
            sidecars: name_texts(self.sidecars@),
            media: name_texts(self.media@),
            phase: self.phase,
            copied: self.copied as nat,
            next: self.next as nat,
            running: self.running as nat,
            completed: self.completed as nat,
            failed: self.failed as nat,
        }
    }
}

/// Bookkeeping of a run: started media are running or settled, and only the
/// transcoding phase has processes.
pub open spec fn run_wf(s: RunView) -> bool {
    &&& s.copied <= s.sidecars.len()
    &&& s.next <= s.media.len()
    &&& s.running <= MEDIA_CONCURRENCY
    &&& s.next >= s.running + s.completed + s.failed
    &&& s.phase != Phase::Finished ==> s.next == s.running + s.completed + s.failed
    &&& s.phase != Phase::Transcoding ==> s.running == 0
    &&& s.phase == Phase::Transcoding ==> s.copied == s.sidecars.len()
    &&& s.phase == Phase::Setup ==> s.copied == 0 && s.next == 0
    &&& s.phase == Phase::Copying ==> s.copied < s.sidecars.len() && s.next == 0
}

pub open spec fn initial_run(
    folder: Seq<char>,
    sidecars: Seq<Seq<char>>,
    media: Seq<Seq<char>>,
) -> RunView {
    RunView {
        folder,
        sidecars,
        media,
        phase: Phase::Setup,
        copied: 0,
        next: 0,
        running: 0,
        completed: 0,
        failed: 0,
    }
}

pub open spec fn done_report(s: RunView) -> ActionView {
    ActionView::Report(MessageView::Done { folder: s.folder })
}

/// How many transcoders start now: up to the per-group bound, while media
/// files remain.
pub open spec fn start_count(s: RunView) -> nat {
    let free = (MEDIA_CONCURRENCY - s.running) as nat;
    let left = (s.media.len() - s.next) as nat;
    if free < left {
        free
    } else {
        left
    }
}

/// Enter or continue transcoding: start what the bound allows; once nothing
/// is left to start or running, report the group done and finish.
pub open spec fn fill(s: RunView) -> (RunView, Seq<ActionView>) {
    let k = start_count(s);
    let starts = Seq::new(k, |j: int| ActionView::StartMedia((s.next + j) as nat));
    let t = RunView { phase: Phase::Transcoding, next: s.next + k, running: s.running + k, ..s };
    if t.next == t.media.len() && t.running == 0 {
        (RunView { phase: Phase::Finished, ..t }, starts + seq![done_report(s), ActionView::Finish])
    } else {
        (t, starts)
    }
}

/// Finish at once: report the group done.
pub open spec fn close(s: RunView) -> (RunView, Seq<ActionView>) {
    (RunView { phase: Phase::Finished, ..s }, seq![done_report(s), ActionView::Finish])
}

/// One step of the executor. Events that do not fit the current phase are
/// ignored.
pub open spec fn step_spec(s: RunView, e: EventView) -> (RunView, Seq<ActionView>) {
    match (s.phase, e) {
        (Phase::Finished, _) => (s, Seq::empty()),
        (_, EventView::StopRaised) => {
            let (t, acts) = close(RunView { running: 0, ..s });
            if s.running > 0 {
                (t, seq![ActionView::KillRunning] + acts)
            } else {
                (t, acts)
            }
        },
        (Phase::Setup, EventView::DirsReady(true)) => {
            if s.sidecars.len() > 0 {
                (RunView { phase: Phase::Copying, ..s }, seq![ActionView::CopySidecar(0)])
            } else {
                fill(s)
            }
        },
        (Phase::Setup, EventView::DirsReady(false)) => close(s),
        (Phase::Copying, EventView::SidecarCopied(true)) => {
            let report = ActionView::Report(
                MessageView::Update { folder: s.folder, file: s.sidecars[s.copied as int], stage: Stage::Xml },
            );
            let t = RunView { copied: s.copied + 1, ..s };
            if t.copied < t.sidecars.len() {
                (t, seq![report, ActionView::CopySidecar(t.copied)])
            } else {
                let (u, acts) = fill(RunView { phase: Phase::Transcoding, ..t });
                (u, seq![report] + acts)
            }
        },
        (Phase::Copying, EventView::SidecarCopied(false)) => close(s),
        (Phase::Transcoding, EventView::MediaExited { index, success }) => {
            if s.running == 0 || index >= s.media.len() {
                (s, Seq::empty())
            } else {
                let report = if success {
                    ActionView::Report(
                        MessageView::Update { folder: s.folder, file: s.media[index as int], stage: Stage::Video },
                    )
                } else {
                    ActionView::Report(MessageView::Failed { folder: s.folder, file: s.media[index as int] })
                };
                let t = if success {
                    RunView { running: (s.running - 1) as nat, completed: s.completed + 1, ..s }
                } else {
                    RunView { running: (s.running - 1) as nat, failed: s.failed + 1, ..s }
                };
                let (u, acts) = fill(t);
                (u, seq![report] + acts)
            }
        },
        _ => (s, Seq::empty()),
    }
}

impl GroupRun {
    pub open spec fn wf(&self) -> bool {
        run_wf(self@)
    }

    /// A run for the group `folder`, whose sidecar and media files have the
    /// given display names.
    pub fn new(folder: String, sidecars: Vec<String>, media: Vec<String>) -> (r: Self)
        ensures
            r@ == initial_run(folder@, name_texts(sidecars@), name_texts(media@)),
            r.wf(),
    {
        GroupRun { folder, sidecars, media, phase: Phase::Setup, copied: 0, next: 0, running: 0, completed: 0, failed: 0 }
    }

    pub fn phase(&self) -> (r: Phase)
        ensures
            r == self@.phase,
    {
        self.phase
    }

    pub fn completed(&self) -> (r: usize)
        ensures
            r == self@.completed,
    {
        self.completed
    }

    pub fn failed(&self) -> (r: usize)
        ensures
            r == self@.failed,
    {
        self.failed
    }

    fn done_message(&self) -> (r: RunAction)
        ensures
            r@ == done_report(self@),
    {
        RunAction::Report(Message::Done { folder_name: self.folder.clone() })
    }

    fn close(&mut self) -> (r: Vec<RunAction>)
        ensures
            (final(self)@, action_views(r@)) == close(old(self)@),
    {
        let mut acts = Vec::new();
        acts.push(self.done_message());
        acts.push(RunAction::Finish);
        self.phase = Phase::Finished;
        assert(action_views(acts@) =~= close(old(self)@).1);
        acts
    }

    fn fill(&mut self) -> (r: Vec<RunAction>)
        requires
            run_wf(old(self)@),
            old(self)@.copied == old(self)@.sidecars.len(),
            old(self)@.phase != Phase::Finished,
        ensures
            (final(self)@, action_views(r@)) == fill(old(self)@),
    {
        let ghost s0 = self@;
        let mut acts: Vec<RunAction> = Vec::new();
        self.phase = Phase::Transcoding;
        while self.running < MEDIA_CONCURRENCY && self.next < self.media.len()
            invariant
                self@ == (RunView {
                    phase: Phase::Transcoding,
                    next: s0.next + acts@.len(),
                    running: s0.running + acts@.len(),
                    ..s0
                }),
                acts@.len() <= start_count(s0),
                action_views(acts@) =~= Seq::new(
                    acts@.len(),
                    |j: int| ActionView::StartMedia((s0.next + j) as nat),
                ),
            decreases self.media.len() - self.next,
        {
            let ghost before = acts@;
            acts.push(RunAction::StartMedia(self.next));
            assert(action_views(acts@) =~= action_views(before).push(
                ActionView::StartMedia(self.next as nat),
            ));
            self.next = self.next + 1;
            self.running = self.running + 1;
        }
        assert(acts@.len() == start_count(s0));
        if self.next == self.media.len() && self.running == 0 {
            acts.push(self.done_message());
            acts.push(RunAction::Finish);
            self.phase = Phase::Finished;
        }
        assert(action_views(acts@) =~= fill(s0).1);
        acts
    }

    /// One step: the actions to perform, in order, after `event`.
    pub fn step(&mut self, event: RunEvent) -> (r: Vec<RunAction>)
        requires
            old(self).wf(),
        ensures
            final(self).wf(),
            (final(self)@, action_views(r@)) == step_spec(old(self)@, event@),
    {
        proof {
            lemma_step_wf(self@, event@);
        }
        assert(self@.sidecars.len() == self.sidecars@.len());
        assert(self@.media.len() == self.media@.len());
        if self.phase == Phase::Finished {
            return Vec::new();
        }
        match event {
            RunEvent::StopRaised => {
                let had_running = self.running > 0;
                self.running = 0;
                let acts = self.close();
                if had_running {
                    let mut all = Vec::new();
                    all.push(RunAction::KillRunning);
                    let mut rest = acts;
                    all.append(&mut rest);
                    assert(action_views(all@) =~= step_spec(old(self)@, event@).1);
                    all
                } else {
                    acts
                }
            },
            RunEvent::DirsReady(ok) => {
                if self.phase != Phase::Setup {
                    return Vec::new();
                }
                if !ok {
                    return self.close();
                }
                if self.sidecars.len() > 0 {
                    self.phase = Phase::Copying;
                    let mut acts = Vec::new();
                    acts.push(RunAction::CopySidecar(0));
                    assert(action_views(acts@) =~= step_spec(old(self)@, event@).1);
                    acts
                } else {
                    self.fill()
                }
            },
            RunEvent::SidecarCopied(ok) => {
                if self.phase != Phase::Copying {
                    return Vec::new();
                }
                if !ok {
                    return self.close();
                }
                assert(self.copied < self.sidecars.len());
                let report = RunAction::Report(
                    Message::Update {
                        folder_name: self.folder.clone(),
                        working_file: self.sidecars[self.copied].clone(),
                        action: Stage::Xml,
                    },
                );
                self.copied = self.copied + 1;
                let mut acts = Vec::new();
                acts.push(report);
                if self.copied < self.sidecars.len() {
                    acts.push(RunAction::CopySidecar(self.copied));
                } else {
                    self.phase = Phase::Transcoding;
                    let mut more = self.fill();
                    acts.append(&mut more);
                }
                assert(action_views(acts@) =~= step_spec(old(self)@, event@).1);
                acts
            },
            RunEvent::MediaExited { index, success, stderr } => {
                if self.phase != Phase::Transcoding || self.running == 0 || index >= self.media.len() {
                    return Vec::new();
                }
                let report = if success {
                    RunAction::Report(
                        Message::Update {
                            folder_name: self.folder.clone(),
                            working_file: self.media[index].clone(),
                            action: Stage::Video,
                        },
                    )
                } else {
                    RunAction::Report(
                        Message::Failed {
                            folder_name: self.folder.clone(),
                            working_file: self.media[index].clone(),
                            cause: stderr,
                        },
                    )
                };
                self.running = self.running - 1;
                if success {
                    self.completed = self.completed + 1;
                } else {
                    self.failed = self.failed + 1;
                }
                let mut acts = Vec::new();
                acts.push(report);
                let mut more = self.fill();
                acts.append(&mut more);
                assert(action_views(acts@) =~= step_spec(old(self)@, event@).1);
                acts
            },
        }
    }
}

proof fn lemma_fill_wf(s: RunView)
    requires
        run_wf(s),
        s.copied == s.sidecars.len(),
        s.phase != Phase::Finished,
    ensures
        run_wf(fill(s).0),
        fill(s).0.next == s.next + start_count(s),
{
}

/// The state after a sequence of events, with every action taken on the way,
/// in order.
pub open spec fn run_events(s: RunView, es: Seq<EventView>) -> (RunView, Seq<ActionView>)
    decreases es.len(),
{
    if es.len() == 0 {
        (s, Seq::empty())
    } else {
        let (t, a) = step_spec(s, es[0]);
        let (u, b) = run_events(t, es.subrange(1, es.len() as int));
        (u, a + b)
    }
}

/// A finished run ignores every later event.
pub proof fn lemma_finished_is_final(s: RunView, es: Seq<EventView>)
    requires
        s.phase == Phase::Finished,
    ensures
        run_events(s, es) == (s, Seq::<ActionView>::empty()),
    decreases es.len(),
{
    if es.len() > 0 {
        lemma_finished_is_final(s, es.subrange(1, es.len() as int));
        assert(Seq::<ActionView>::empty() + Seq::<ActionView>::empty() =~= Seq::<ActionView>::empty());
    }
}

/// Cancellation: once the stop signal is raised, the transcoders in flight
/// (at most the per-group bound) are killed in one action, the group is
/// reported done, and none of the media files not yet started is started,
/// whatever events follow.
pub proof fn lemma_stop_starts_nothing(s: RunView, es: Seq<EventView>)
    requires
        run_wf(s),
        s.phase != Phase::Finished,
    ensures
        run_events(s, seq![EventView::StopRaised] + es).0.phase == Phase::Finished,
        run_events(s, seq![EventView::StopRaised] + es).0.next == s.next,
        s.running <= MEDIA_CONCURRENCY,
        run_events(s, seq![EventView::StopRaised] + es).1 == (if s.running > 0 {
            seq![ActionView::KillRunning]
        } else {
            Seq::<ActionView>::empty()
        }) + seq![done_report(s), ActionView::Finish],
        forall|i: int|
            0 <= i < run_events(s, seq![EventView::StopRaised] + es).1.len() ==> !(
            #[trigger] run_events(s, seq![EventView::StopRaised] + es).1[i] is StartMedia),
{
    let all = seq![EventView::StopRaised] + es;
    assert(all[0] == EventView::StopRaised);
    assert(all.subrange(1, all.len() as int) =~= es);
    let (t, a) = step_spec(s, EventView::StopRaised);
    lemma_finished_is_final(t, es);
    let expected = (if s.running > 0 {
        seq![ActionView::KillRunning]
    } else {
        Seq::<ActionView>::empty()
    }) + seq![done_report(s), ActionView::Finish];
    assert(a + Seq::<ActionView>::empty() =~= expected);
}

/// Every step keeps the run's bookkeeping consistent.
pub proof fn lemma_step_wf(s: RunView, e: EventView)
    requires
        run_wf(s),
    ensures
        run_wf(step_spec(s, e).0),
{
    match (s.phase, e) {
        (Phase::Finished, _) => {},
        (_, EventView::StopRaised) => {},
        (Phase::Setup, EventView::DirsReady(true)) => {
            if s.sidecars.len() == 0 {
                lemma_fill_wf(s);
            }
        },
        (Phase::Copying, EventView::SidecarCopied(true)) => {
            let t = RunView { copied: s.copied + 1, ..s };
            if t.copied >= t.sidecars.len() {
                lemma_fill_wf(RunView { phase: Phase::Transcoding, ..t });
            }
        },
        (Phase::Transcoding, EventView::MediaExited { index, success }) => {
            if s.running > 0 && index < s.media.len() {
                let t = if success {
                    RunView { running: (s.running - 1) as nat, completed: s.completed + 1, ..s }
                } else {
                    RunView { running: (s.running - 1) as nat, failed: s.failed + 1, ..s }
                };
                lemma_fill_wf(t);
            }
        },
        _ => {},
    }
}

} // verus!
