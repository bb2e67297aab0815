//! The progress actor's state and decisions. It alone mutates trackers; the
//! mailbox, the timer and the snapshot channel are driven from outside, one
//! event at a time.
use vstd::prelude::*;

use crate::progress::tracker::{
    after_update, initial_tracker, snapshot_of, tracker_wf, JobStatus, ProgressTracker,
    TrackerView,
};
use crate::progress::types::{Message, MessageView, Progress};

verus! {

/// The index of the tracker named `name`, or -1 when there is none.
pub open spec fn position_of(s: Seq<TrackerView>, name: Seq<char>) -> int
    decreases s.len(),
{
    if s.len() == 0 {
        -1
    } else if s.last().folder == name {
        s.len() - 1
    } else {
        position_of(s.drop_last(), name)
    }
}

/// No two trackers share a group name, and each is well formed.
pub open spec fn board_wf(s: Seq<TrackerView>) -> bool {
    &&& forall|i: int| 0 <= i < s.len() ==> tracker_wf(#[trigger] s[i])
    &&& forall|i: int, j: int|
        0 <= i < j < s.len() ==> (#[trigger] s[i]).folder != (#[trigger] s[j]).folder
}

/// The trackers after one message. `Create` for a known group and every
/// other message for an unknown group change nothing.
pub open spec fn apply_message(s: Seq<TrackerView>, m: MessageView) -> Seq<TrackerView> {
    match m {
        MessageView::Create { job } => {
            if position_of(s, job.folder_name) >= 0 {
                s
            } else {
                s.push(initial_tracker(job))
            }
        },
        MessageView::Update { folder, file, stage } => {
            let i = position_of(s, folder);
            if i < 0 {
                s
            } else {
                s.update(i, after_update(s[i], stage, file))
            }
        },
        MessageView::Failed { folder, .. } => {
            let i = position_of(s, folder);
            if i < 0 {
                s
            } else {
                s.update(i, TrackerView { errors: s[i].errors + 1, ..s[i] })
            }
        },
        MessageView::Done { folder } => {
            let i = position_of(s, folder);
            if i < 0 {
                s
            } else {
                s.update(i, TrackerView { status: JobStatus::Done, ..s[i] })
            }
        },
    }
}

/// The trackers after a sequence of messages, processed in order.
pub open spec fn apply_messages(s: Seq<TrackerView>, ms: Seq<MessageView>) -> Seq<TrackerView>
    decreases ms.len(),
{
    if ms.len() == 0 {
        s
    } else {
        apply_messages(apply_message(s, ms[0]), ms.subrange(1, ms.len() as int))
    }
}

pub proof fn lemma_position_of(s: Seq<TrackerView>, name: Seq<char>)
    ensures
        -1 <= position_of(s, name) < s.len(),
        position_of(s, name) >= 0 ==> s[position_of(s, name)].folder == name,
        position_of(s, name) < 0 ==> forall|i: int| 0 <= i < s.len() ==> s[i].folder != name,
    decreases s.len(),
{
    if s.len() > 0 {
        lemma_position_of(s.drop_last(), name);
        if s.last().folder != name {
            assert forall|i: int| 0 <= i < s.len() - 1 implies s[i] == s.drop_last()[i] by {}
        }
    }
}

/// Every message keeps the board well formed.
pub proof fn lemma_apply_message_wf(s: Seq<TrackerView>, m: MessageView)
    requires
        board_wf(s),
    ensures
        board_wf(apply_message(s, m)),
{
    match m {
        MessageView::Create { job } => {
            lemma_position_of(s, job.folder_name);
        },
        MessageView::Update { folder, file, stage } => {
            lemma_position_of(s, folder);
            let i = position_of(s, folder);
            if i >= 0 {
                crate::progress::tracker::lemma_update_monotone(s[i], stage, file);
            }
        },
        MessageView::Failed { folder, .. } => {
            lemma_position_of(s, folder);
        },
        MessageView::Done { folder } => {
            lemma_position_of(s, folder);
        },
    }
}

/// The trackers after a sequence of actor turns, where `None` stands for a
/// timer tick and `Some(m)` for message `m`.
pub open spec fn apply_turns(s: Seq<TrackerView>, turns: Seq<Option<MessageView>>) -> Seq<
    TrackerView,
>
    decreases turns.len(),
{
    if turns.len() == 0 {
        s
    } else {
        let rest = apply_turns(s, turns.drop_last());
        match turns.last() {
            Some(m) => apply_message(rest, m),
            None => rest,
        }
    }
}

/// The messages among a sequence of turns, in order.
pub open spec fn messages_of(turns: Seq<Option<MessageView>>) -> Seq<MessageView>
    decreases turns.len(),
{
    if turns.len() == 0 {
        Seq::empty()
    } else {
        match turns.last() {
            Some(m) => messages_of(turns.drop_last()).push(m),
            None => messages_of(turns.drop_last()),
        }
    }
}

proof fn lemma_apply_messages_push(s: Seq<TrackerView>, ms: Seq<MessageView>, m: MessageView)
    ensures
        apply_messages(s, ms.push(m)) == apply_message(apply_messages(s, ms), m),
    decreases ms.len(),
{
    if ms.len() == 0 {
        assert(ms.push(m).subrange(1, 1) =~= Seq::<MessageView>::empty());
        assert(ms.push(m)[0] == m);
        assert(apply_messages(apply_message(s, m), Seq::<MessageView>::empty()) == apply_message(
            s,
            m,
        ));
    } else {
        assert(ms.push(m)[0] == ms[0]);
        let next = apply_message(s, ms[0]);
        lemma_apply_messages_push(next, ms.subrange(1, ms.len() as int), m);
        assert(ms.push(m).subrange(1, ms.len() + 1 as int) =~= ms.subrange(1, ms.len() as int).push(m));
    }
}

/// Ticks never hold up or alter message processing: whatever ticks are
/// interleaved, and whether or not their snapshots were taken by anyone,
/// the trackers end as the messages alone would leave them.
pub proof fn lemma_ticks_do_not_disturb(s: Seq<TrackerView>, turns: Seq<Option<MessageView>>)
    ensures
        apply_turns(s, turns) == apply_messages(s, messages_of(turns)),
    decreases turns.len(),
{
    if turns.len() > 0 {
        lemma_ticks_do_not_disturb(s, turns.drop_last());
        if let Some(m) = turns.last() {
            lemma_apply_messages_push(s, messages_of(turns.drop_last()), m);
        }
    }
}

/// What the actor is told: a message from the mailbox, a timer tick, or that
/// the mailbox has closed.
pub enum MonitorEvent {
    Received(Message),
    Tick,
    MailboxClosed,
}

/// What the actor's driver does next: keep going, offer a snapshot batch to
/// the consumer (dropping it when the consumer is behind), or stop.
pub enum MonitorAction {
    Continue,
    Publish(Vec<Progress>),
    Stop,
}

/// Sole owner of every tracker of a run.
pub struct ProgressMonitor {
    trackers: Vec<ProgressTracker>,
}

impl View for ProgressMonitor {
    type V = Seq<TrackerView>;

    closed spec fn view(&self) -> Seq<TrackerView> {
        self.trackers@.map_values(|t: ProgressTracker| t@)
    }
}

impl ProgressMonitor {
    pub open spec fn wf(&self) -> bool {
        board_wf(self@)
    }

    pub fn new() -> (r: Self)
        ensures
            r@ == Seq::<TrackerView>::empty(),
            r.wf(),
    {
        let r = ProgressMonitor { trackers: Vec::new() };
        assert(r@ =~= Seq::<TrackerView>::empty());
        r
    }

    fn find(&self, name: &String) -> (r: Option<usize>)
        ensures
            match r {
                Some(i) => i as int == position_of(self@, name@) && i < self.trackers@.len(),
                None => position_of(self@, name@) < 0,
            },
    {
        let mut i: usize = self.trackers.len();
        assert(self@.subrange(0, i as int) =~= self@);
        while i > 0
            invariant
                i <= self.trackers.len(),
                position_of(self@, name@) == position_of(self@.subrange(0, i as int), name@),
            decreases i,
        {
            let ghost prefix = self@.subrange(0, i as int);
            let t_name = self.trackers[i - 1].folder_name();
            if t_name == *name {
                return Some(i - 1);
            }
            assert(prefix.drop_last() =~= self@.subrange(0, i - 1));
            i = i - 1;
        }
        None
    }

    /// The snapshot of every tracker, in tracker order.
    pub fn snapshot(&self) -> (r: Vec<Progress>)
        ensures
            r@.len() == self@.len(),
            forall|i: int| 0 <= i < r@.len() ==> (#[trigger] r@[i])@ == snapshot_of(self@[i]),
    {
        let mut out: Vec<Progress> = Vec::new();
        let mut i: usize = 0;
        while i < self.trackers.len()
            invariant
                i <= self.trackers.len(),
                out@.len() == i,
                forall|k: int| 0 <= k < i ==> (#[trigger] out@[k])@ == snapshot_of(self@[k]),
            decreases self.trackers.len() - i,
        {
            out.push(self.trackers[i].progress());
            i = i + 1;
        }
        out
    }

    /// One turn of the actor. A message updates the trackers and nothing
    /// else; a tick leaves them as they are and hands out their snapshot;
    /// a closed mailbox ends the actor.
    pub fn step(&mut self, event: MonitorEvent) -> (r: MonitorAction)
        requires
            old(self).wf(),
        ensures
            final(self).wf(),
            match event {
                MonitorEvent::Received(m) => final(self)@ == apply_message(old(self)@, m@)
                    && r is Continue,
                MonitorEvent::Tick => final(self)@ == old(self)@ && match r {
                    MonitorAction::Publish(batch) => batch@.len() == old(self)@.len() && forall|
                        i: int,
                    |
                        0 <= i < batch@.len() ==> (#[trigger] batch@[i])@ == snapshot_of(
                            old(self)@[i],
                        ),
                    _ => false,
                },
                MonitorEvent::MailboxClosed => final(self)@ == old(self)@ && r is Stop,
            },
    {
        match event {
            MonitorEvent::Received(m) => {
                self.handle(m);
                MonitorAction::Continue
            },
            MonitorEvent::Tick => MonitorAction::Publish(self.snapshot()),
            MonitorEvent::MailboxClosed => MonitorAction::Stop,
        }
    }

    /// Applies one message to the trackers.
    pub fn handle(&mut self, msg: Message)
        requires
            old(self).wf(),
        ensures
            final(self).wf(),
            final(self)@ == apply_message(old(self)@, msg@),
    {
        proof {
            lemma_apply_message_wf(self@, msg@);
        }
        assert(self@.subrange(0, self@.len() as int) =~= self@);
        match msg {
            Message::Create { job_info } => {
                let name = job_info.folder_name();
                if self.find(&name).is_none() {
                    self.trackers.push(ProgressTracker::new(job_info));
                    assert(self@ =~= apply_message(old(self)@, msg@));
                }
            },
            Message::Update { folder_name, working_file, action } => {
                if let Some(i) = self.find(&folder_name) {
                    let mut t = self.trackers.remove(i);
                    // An update beyond a stage's total is dropped; the actor never fails.
                    let _ = t.update(action, working_file);
                    self.trackers.insert(i, t);
                    assert(self@ =~= apply_message(old(self)@, msg@));
                }
            },
            Message::Failed { folder_name, working_file, cause } => {
                if let Some(i) = self.find(&folder_name) {
                    let mut t = self.trackers.remove(i);
                    t.record_error(working_file, cause);
                    self.trackers.insert(i, t);
                    assert(self@ =~= apply_message(old(self)@, msg@));
                }
            },
            Message::Done { folder_name } => {
                if let Some(i) = self.find(&folder_name) {
                    let mut t = self.trackers.remove(i);
                    t.set_done();
                    self.trackers.insert(i, t);
                    assert(self@ =~= apply_message(old(self)@, msg@));
                }
            },
        }
    }
}

} // verus!
