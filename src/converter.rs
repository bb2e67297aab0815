//! The converter's run state machine: a prepared task is admitted once,
//! drained by exactly one run, and cleared by a reset or by the run's end.
use vstd::prelude::*;

use crate::bucket::{bucket_views, Bucket, BucketView};
use crate::error::Error;
use crate::options::ConverterOptions;
use crate::progress::monitor::{apply_message, apply_messages, board_wf, lemma_position_of};
use crate::progress::tracker::{initial_tracker, TrackerView};
use crate::progress::types::{JobInfo, JobInfoView, Message, MessageView};

verus! {

/// Fallback bound on concurrently running groups when the host's
/// parallelism is unknown.
pub const FALLBACK_CONCURRENCY: usize = 2;

#[derive(Debug, Clone, Copy, PartialEq, Eq, Structural)]
pub enum State {
    Idle,
    TaskAvailable,
}

/// Mathematical view of a [`Converter`].
pub struct ConverterView {
    pub state: State,
    pub options: Option<ConverterOptions>,
    pub groups: Option<Seq<BucketView>>,
}

/// Everything one run needs: the options, the drained groups and the bound
/// on concurrently running groups.
pub struct ConversionPlan {
    pub options: ConverterOptions,
    pub buckets: Vec<Bucket>,
    pub max_concurrency: usize,
}

pub struct Converter {
    options: Option<ConverterOptions>,
    buckets: Option<Vec<Bucket>>,
    state: State,
}

impl View for Converter {
    type V = ConverterView;

    closed spec fn view(&self) -> ConverterView {
        ConverterView {
            state: self.state,
            options: self.options,
            groups: match self.buckets {
                Some(b) => Some(bucket_views(b@)),
                None => None,
            },
        }
    }
}

/// A task is available exactly when one was prepared and not yet drained.
pub open spec fn can_start(c: ConverterView) -> bool {
    c.state == State::TaskAvailable && c.options is Some && c.groups is Some
}

/// The converter once a run has taken its task: options and groups go to
/// the run.
pub open spec fn after_start(c: ConverterView) -> ConverterView {
    if can_start(c) {
        ConverterView { options: None, groups: None, ..c }
    } else {
        c
    }
}

/// The converter once prepared with `options` and `groups`.
pub open spec fn after_prepare(
    c: ConverterView,
    options: ConverterOptions,
    groups: Seq<BucketView>,
) -> ConverterView {
    ConverterView { state: State::TaskAvailable, options: Some(options), groups: Some(groups) }
}

/// The converter after `reset`: no options, idle.
pub open spec fn after_reset(c: ConverterView) -> ConverterView {
    ConverterView { state: State::Idle, options: None, ..c }
}

/// The converter after a run has ended.
pub open spec fn after_finish(c: ConverterView) -> ConverterView {
    ConverterView { state: State::Idle, ..c }
}

/// What a group looks like to the progress system when it is admitted.
pub open spec fn job_of(b: BucketView) -> JobInfoView {
    JobInfoView {
        folder_name: b.title,
        total_video: b.video.len() as u32,
        total_xml: b.xml.len() as u32,
    }
}

/// One `Create` message per group, in the groups' order.
pub open spec fn create_messages(groups: Seq<BucketView>) -> Seq<MessageView> {
    groups.map_values(|b: BucketView| MessageView::Create { job: job_of(b) })
}

pub open spec fn message_views(msgs: Seq<Message>) -> Seq<MessageView> {
    msgs.map_values(|m: Message| m@)
}

/// Groups are keyed by their titles.
pub open spec fn titles_unique(groups: Seq<BucketView>) -> bool {
    forall|i: int, j: int|
        0 <= i < j < groups.len() ==> (#[trigger] groups[i]).title != (#[trigger] groups[j]).title
}

/// The concurrency bound for a host that reports `parallelism`.
pub open spec fn concurrency_for(parallelism: Option<usize>) -> usize {
    match parallelism {
        Some(n) => if n > 0 { n } else { FALLBACK_CONCURRENCY },
        None => FALLBACK_CONCURRENCY,
    }
}

proof fn lemma_creates_append(s: Seq<TrackerView>, groups: Seq<BucketView>)
    requires
        titles_unique(groups),
        forall|i: int, j: int|
            0 <= i < s.len() && 0 <= j < groups.len() ==> (#[trigger] s[i]).folder
                != (#[trigger] groups[j]).title,
    ensures
        apply_messages(s, create_messages(groups)) == s + groups.map_values(
            |b: BucketView| initial_tracker(job_of(b)),
        ),
    decreases groups.len(),
{
    let added = groups.map_values(|b: BucketView| initial_tracker(job_of(b)));
    if groups.len() == 0 {
        assert(create_messages(groups) =~= Seq::<MessageView>::empty());
        assert(s + added =~= s);
    } else {
        let first = groups[0];
        lemma_position_of(s, first.title);
        let s1 = s.push(initial_tracker(job_of(first)));
        assert(apply_message(s, create_messages(groups)[0]) == s1);
        let rest = groups.subrange(1, groups.len() as int);
        assert(create_messages(groups).subrange(1, groups.len() as int) =~= create_messages(rest));
        assert forall|i: int, j: int|
            0 <= i < s1.len() && 0 <= j < rest.len() implies (#[trigger] s1[i]).folder
                != (#[trigger] rest[j]).title by {
            assert(rest[j] == groups[j + 1]);
            if i < s.len() {
                assert(s1[i] == s[i]);
            }
        }
        lemma_creates_append(s1, rest);
        assert(s1 + rest.map_values(|b: BucketView| initial_tracker(job_of(b))) =~= s + added);
    }
}

/// Every admitted group is registered exactly once: the `Create` messages of
/// a preparation, applied to an empty progress actor, leave one tracker per
/// group, in order, whose totals are the group's sidecar and media counts.
pub proof fn lemma_prepare_registers_each_group(groups: Seq<BucketView>)
    requires
        titles_unique(groups),
        forall|i: int|
            0 <= i < groups.len() ==> (#[trigger] groups[i]).xml.len() <= u32::MAX
                && groups[i].video.len() <= u32::MAX,
    ensures
        apply_messages(Seq::empty(), create_messages(groups)).len() == groups.len(),
        board_wf(apply_messages(Seq::empty(), create_messages(groups))),
        forall|i: int|
            0 <= i < groups.len() ==> {
                let t = #[trigger] apply_messages(Seq::empty(), create_messages(groups))[i];
                &&& t == initial_tracker(job_of(groups[i]))
                &&& t.folder == groups[i].title
                &&& t.total_xml == groups[i].xml.len()
                &&& t.total_video == groups[i].video.len()
            },
{
    lemma_creates_append(Seq::empty(), groups);
    let board = apply_messages(Seq::empty(), create_messages(groups));
    assert(board =~= groups.map_values(|b: BucketView| initial_tracker(job_of(b))));
}

/// One run per prepared task: once a run has taken the task, starting again
/// fails, directly, after a reset, or after the run has ended, until the
/// next preparation.
pub proof fn lemma_single_run_per_task(
    c: ConverterView,
    options: ConverterOptions,
    groups: Seq<BucketView>,
)
    ensures
        !can_start(after_start(c)),
        !can_start(after_reset(c)),
        !can_start(after_finish(after_start(c))),
        can_start(after_prepare(c, options, groups)),
        !can_start(after_start(after_reset(after_start(after_prepare(c, options, groups))))),
{
}

impl Converter {
    pub fn new() -> (r: Self)
        ensures
            r@ == (ConverterView { state: State::Idle, options: None, groups: None }),
    {
        Converter { options: None, buckets: None, state: State::Idle }
    }

    /// Clears the prepared options and returns to `Idle`.
    pub fn reset(&mut self)
        ensures
            final(self)@ == after_reset(old(self)@),
    {
        self.options = None;
        self.state = State::Idle;
    }

    /// Admits the groups that listing and bucketing the input produced, or
    /// passes their failure on unchanged. On success the converter holds the
    /// task and the result holds one `Create` message per group, in order.
    pub fn prepare_task(&mut self, options: ConverterOptions, found: Result<Vec<Bucket>, Error>) -> (r:
        Result<Vec<Message>, Error>)
        ensures
            match found {
                Err(e) => r == Err::<Vec<Message>, Error>(e) && final(self)@ == old(self)@,
                Ok(groups) => final(self)@ == after_prepare(
                    old(self)@,
                    options,
                    bucket_views(groups@),
                ) && match r {
                    Ok(msgs) => message_views(msgs@) == create_messages(bucket_views(groups@)),
                    Err(_) => false,
                },
            },
    {
        match found {
            Err(e) => Err(e),
            Ok(groups) => {
                let mut msgs: Vec<Message> = Vec::new();
                let mut i: usize = 0;
                while i < groups.len()
                    invariant
                        i <= groups.len(),
                        msgs@.len() == i,
                        forall|k: int|
                            0 <= k < i ==> (#[trigger] msgs@[k])@ == (MessageView::Create {
                                job: job_of(groups@[k]@),
                            }),
                    decreases groups.len() - i,
                {
                    let b = &groups[i];
                    let job = JobInfo::new(b.title(), b.video_files().len(), b.xml_files().len());
                    msgs.push(Message::Create { job_info: job });
                    i = i + 1;
                }
                assert(message_views(msgs@) =~= create_messages(bucket_views(groups@)));
                self.buckets = Some(groups);
                self.options = Some(options);
                self.state = State::TaskAvailable;
                Ok(msgs)
            },
        }
    }

    /// Drains the prepared task for one run. Fails with
    /// `ConverterHasNoTaskAvailable`, changing nothing, unless a task is
    /// available; a second call without a new preparation therefore fails.
    pub fn start_conversion(&mut self, parallelism: Option<usize>) -> (r: Result<
        ConversionPlan,
        Error,
    >)
        ensures
            final(self)@ == after_start(old(self)@),
            match r {
                Ok(plan) => can_start(old(self)@) && Some(plan.options) == old(self)@.options
                    && Some(bucket_views(plan.buckets@)) == old(self)@.groups
                    && plan.max_concurrency == concurrency_for(parallelism),
                Err(e) => !can_start(old(self)@) && e is ConverterHasNoTaskAvailable,
            },
    {
        if self.state != State::TaskAvailable || self.options.is_none() || self.buckets.is_none() {
            return Err(Error::ConverterHasNoTaskAvailable);
        }
        let buckets = match self.buckets.take() {
            Some(b) => b,
            None => Vec::new(),
        };
        let options = match self.options.take() {
            Some(o) => o,
            None => {
                return Err(Error::ConverterHasNoTaskAvailable);
            }
        };
        let max_concurrency = match parallelism {
            Some(n) => if n > 0 { n } else { FALLBACK_CONCURRENCY },
            None => FALLBACK_CONCURRENCY,
        };
        Ok(ConversionPlan { options, buckets, max_concurrency })
    }

    /// Marks the end of a run: back to `Idle`.
    pub fn finish_conversion(&mut self)
        ensures
            final(self)@ == after_finish(old(self)@),
    {
        self.state = State::Idle;
    }
}

} // verus!
