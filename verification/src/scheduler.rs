//! The playback scheduler: the queries of one queue are resolved, cached and
//! rendered strictly in order, and the time an item plays is waited out
//! while the next item is already being resolved and fetched.
//!
//! The scheduler does no outside work itself. It is a machine that hands
//! out one `Action` at a time and is told what came of it by an `Event`;
//! whoever drives it performs the actions. The renderer is started and not
//! waited for, so the scheduler keeps the order by time alone: before the
//! renderer is started for any item but the first, it asks for a wait of the
//! length of the item before.

use crate::cache::{
    cache_path, download, ensure_local, fetch_command, path_of, FetchOutcome, Local,
};
use crate::duration::{duration_seconds, duration_to_seconds};
use crate::error::PlayError;
use crate::resolver::{
    describes, get_info, resolver_args, resolver_command, ResolverOutcome, VideoInfo,
};
use crate::queue::queue_of;
use crate::settings::Settings;
use crate::text::{texts, trimmed};
use vstd::prelude::*;

verus! {

/// Where the scheduler stands: which answer it is waiting for.
#[derive(Clone, Copy, Debug, PartialEq, Eq, Structural)]
pub enum Phase {
    /// Nothing has been asked for yet.
    Ready,
    /// The resolver is running for the current item.
    Resolving,
    /// The cache directory is being looked at for the current item's file.
    Probing,
    /// The fetcher is running for the current item.
    Fetching,
    /// The item before the current one is being waited out.
    WaitingBefore,
    /// The renderer is being started for the current item.
    Rendering,
    /// The only item of the queue is being waited out.
    WaitingAfter,
    /// Every item has been rendered.
    Finished,
    /// The run was abandoned.
    Failed,
}

/// What the scheduler asks its driver to do next.
pub enum Action {
    /// Run the resolver with these arguments.
    Resolve { args: Vec<String> },
    /// Find out whether a file exists at `path`.
    Probe { path: String },
    /// Run the fetcher with these arguments.
    Fetch { args: Vec<String> },
    /// Let this many seconds pass.
    Wait { seconds: u64 },
    /// Start the renderer on the file at `path`, and do not wait for it.
    Render { path: String },
    /// The queue has been played: stop, with success.
    Finish,
    /// The run is abandoned: stop, with this failure.
    Abort { error: PlayError },
}

/// What came of the action that the scheduler asked for last.
pub enum Event {
    /// Nothing yet: the run begins.
    Start,
    /// The resolver has run.
    Resolved(ResolverOutcome),
    /// The cache directory has been looked at: whether the file exists.
    Probed(bool),
    /// The fetcher has run.
    Fetched(FetchOutcome),
    /// The time asked for has passed.
    Waited,
    /// The renderer was started, or could not be, for the reason given.
    Rendered(Result<(), String>),
}

/// One entry of the record of a run: an action that was handed out, with
/// the position in the queue of the item it was for.
pub enum Step {
    /// The resolver was asked for.
    Resolve { item: nat },
    /// A look at the cache directory was asked for.
    Probe { item: nat },
    /// The fetcher was asked for.
    Fetch { item: nat },
    /// A wait was asked for.
    Wait { seconds: u64 },
    /// The renderer was asked for.
    Render { item: nat },
    /// The run was ended with success.
    Finish,
    /// The run was abandoned.
    Abort,
}

/// The item that an entry of the record is for, where it is for one.
pub open spec fn item_of(step: Step) -> Option<nat> {
    match step {
        Step::Resolve { item } => Some(item),
        Step::Probe { item } => Some(item),
        Step::Fetch { item } => Some(item),
        Step::Render { item } => Some(item),
        _ => None,
    }
}

/// The scheduler as contracts see it.
pub struct Model {
    /// The queries, in the order in which they are played.
    pub queue: Seq<Seq<char>>,
    /// The cache directory.
    pub dir: Seq<char>,
    /// The audio quality asked of the fetcher.
    pub quality: Seq<char>,
    /// The number of fragments asked of the fetcher.
    pub fragments: Seq<char>,
    /// The position in the queue of the current item.
    pub index: nat,
    /// Which answer the scheduler is waiting for.
    pub phase: Phase,
    /// The length in seconds of the item that was rendered last.
    pub carry_wait: u64,
    /// The current item's title, once it is resolved.
    pub title: Seq<char>,
    /// The current item's identifier, once it is resolved.
    pub id: Seq<char>,
    /// The current item's length in seconds, once it is resolved.
    pub seconds: u64,
    /// The actions handed out so far, up to the one that ended the run.
    pub trace: Seq<Step>,
    /// The lengths in seconds of the items resolved so far, by position.
    pub durations: Seq<u64>,
    /// For each item rendered so far, the place of its `Render` in `trace`.
    pub rendered_at: Seq<int>,
}

impl Model {
    /// Whether the current item has been resolved and not yet rendered.
    pub open spec fn holds_item(self) -> bool {
        self.phase == Phase::Probing || self.phase == Phase::Fetching || self.phase
            == Phase::WaitingBefore
    }

    /// The counts agree: no more items are rendered than resolved, and none
    /// is resolved beyond the current one.
    pub open spec fn counts_fit(self) -> bool {
        &&& self.index <= self.queue.len()
        &&& self.rendered_at.len() <= self.durations.len() <= self.queue.len()
        &&& self.durations.len() <= self.index + 1
    }

    /// The phase agrees with how far the current item has come, and with
    /// the action that was handed out last.
    pub open spec fn phase_fits(self) -> bool {
        let n = self.queue.len();
        let resolved = self.durations.len();
        let rendered = self.rendered_at.len();
        match self.phase {
            Phase::Ready => self.index == 0 && self.trace.len() == 0 && resolved == 0,
            Phase::Resolving => self.index < n && resolved == self.index && rendered == self.index,
            Phase::Probing | Phase::Fetching => {
                &&& self.index < n
                &&& resolved == self.index + 1
                &&& rendered == self.index
            },
            Phase::WaitingBefore => {
                &&& 1 <= self.index < n
                &&& resolved == self.index + 1
                &&& rendered == self.index
                &&& self.trace.len() > 0
                &&& self.trace.last() == (Step::Wait { seconds: self.carry_wait })
            },
            Phase::Rendering => {
                &&& self.index < n
                &&& resolved == self.index + 1
                &&& rendered == self.index + 1
                &&& self.rendered_at[self.index as int] == self.trace.len() - 1
            },
            Phase::WaitingAfter => {
                &&& n == 1
                &&& self.index == 0
                &&& resolved == 1
                &&& rendered == 1
                &&& self.rendered_at[0] == self.trace.len() - 2
                &&& self.trace.last() == (Step::Wait { seconds: self.durations[0] })
            },
            Phase::Finished => {
                &&& rendered == n
                &&& self.trace.len() > 0
                &&& self.trace.last() == Step::Finish
                &&& n == 1 ==> {
                    &&& self.trace.len() == self.rendered_at[0] + 3
                    &&& self.trace[self.rendered_at[0] + 1] == (Step::Wait {
                        seconds: self.durations[0],
                    })
                }
            },
            Phase::Failed => self.trace.len() > 0 && self.trace.last() == Step::Abort,
        }
    }

    /// The lengths that the scheduler holds are those of the items: of the
    /// current one while it is on its way, and of the one before where a
    /// queue of several items has one.
    pub open spec fn lengths_fit(self) -> bool {
        &&& (self.queue.len() > 1 && self.index >= 1 && (self.phase == Phase::Resolving
            || self.holds_item()) ==> self.carry_wait == self.durations[self.index - 1])
        &&& (self.holds_item() || self.phase == Phase::Rendering ==> self.seconds
            == self.durations[self.index as int])
    }

    /// The renders stand in the record where `rendered_at` says, and
    /// directly before each render but the first stands a wait of the
    /// length of the item before, itself behind the render of that item.
    pub open spec fn renders_fit(self) -> bool {
        &&& forall|i: int|
            0 <= i < self.rendered_at.len() ==> {
                &&& 0 <= #[trigger] self.rendered_at[i] < self.trace.len()
                &&& self.trace[self.rendered_at[i]] == (Step::Render { item: i as nat })
            }
        &&& forall|i: int, j: int|
            0 <= i && j == i + 1 && j < self.rendered_at.len() ==> {
                &&& #[trigger] self.rendered_at[i] < #[trigger] self.rendered_at[j] - 1
                &&& self.trace[self.rendered_at[j] - 1] == (Step::Wait {
                    seconds: self.durations[i],
                })
            }
    }

    /// Every entry of the record has its reason: a render is the one noted
    /// for its item; a wait comes after an item was resolved, and in a
    /// queue of one item it is the one wait behind the render; the action
    /// that ends a run is the last; and no entry is for an item beyond the
    /// current one.
    pub open spec fn record_fits(self) -> bool {
        forall|t: int|
            0 <= t < self.trace.len() ==> match #[trigger] self.trace[t] {
                Step::Render { item } => {
                    &&& item < self.rendered_at.len()
                    &&& self.rendered_at[item as int] == t
                },
                Step::Wait { seconds } => {
                    &&& self.durations.len() >= 1
                    &&& self.queue.len() == 1 ==> {
                        &&& self.rendered_at.len() == 1
                        &&& t == self.rendered_at[0] + 1
                        &&& seconds == self.durations[0]
                    }
                },
                Step::Finish => t == self.trace.len() - 1 && self.phase == Phase::Finished,
                Step::Abort => t == self.trace.len() - 1 && self.phase == Phase::Failed,
                Step::Resolve { item } => item <= self.index && item < self.queue.len(),
                Step::Probe { item } => item <= self.index && item < self.queue.len(),
                Step::Fetch { item } => item <= self.index && item < self.queue.len(),
            }
    }

    /// What holds of the scheduler at every moment of every run.
    pub open spec fn wf(self) -> bool {
        &&& self.counts_fit()
        &&& self.phase_fits()
        &&& self.lengths_fit()
        &&& self.renders_fit()
        &&& self.record_fits()
    }

    /// The scheduler with one more action on its record.
    pub open spec fn logged(self, step: Step) -> Model {
        Model { trace: self.trace.push(step), ..self }
    }

    /// The scheduler after it has abandoned the run.
    pub open spec fn failed(self) -> Model {
        Model { phase: Phase::Failed, ..self.logged(Step::Abort) }
    }

    /// The scheduler after it has asked for `item` to be resolved.
    pub open spec fn resolving(self, item: nat) -> Model {
        Model { phase: Phase::Resolving, index: item, ..self.logged(Step::Resolve { item }) }
    }

    /// The scheduler after it has asked for the current item to be rendered.
    pub open spec fn rendering(self) -> Model {
        Model {
            phase: Phase::Rendering,
            rendered_at: self.rendered_at.push(self.trace.len() as int),
            ..self.logged(Step::Render { item: self.index })
        }
    }

    /// The scheduler after it has asked for a wait of `seconds`, to go on in
    /// `phase`.
    pub open spec fn waiting(self, phase: Phase, seconds: u64) -> Model {
        Model { phase, ..self.logged(Step::Wait { seconds }) }
    }

    /// The scheduler after it has found every item rendered.
    pub open spec fn finished(self) -> Model {
        Model { phase: Phase::Finished, index: self.queue.len(), ..self.logged(Step::Finish) }
    }
}

/// Whether a run of the resolver gives no item.
pub open spec fn resolution_fails(outcome: ResolverOutcome) -> bool {
    match outcome {
        ResolverOutcome::Unavailable => true,
        ResolverOutcome::Exited { success, stdout, stderr } => !success || trimmed(stdout@).len()
            == 0,
    }
}

/// Whether `error` is the failure that a run of the resolver stands for.
pub open spec fn resolution_error(outcome: ResolverOutcome, error: PlayError) -> bool {
    match outcome {
        ResolverOutcome::Unavailable => error is ResolverUnavailable,
        ResolverOutcome::Exited { success, stdout, stderr } => if !success {
            error matches PlayError::ResolverError(report) && report@ == stderr@
        } else {
            error is NotFound
        },
    }
}

/// Whether a run of the fetcher put no file on disk.
pub open spec fn fetch_fails(outcome: FetchOutcome) -> bool {
    match outcome {
        FetchOutcome::Unavailable => true,
        FetchOutcome::Exited { success, stderr } => !success,
    }
}

/// Whether `error` is the failure that a run of the fetcher stands for.
pub open spec fn fetch_error(outcome: FetchOutcome, error: PlayError) -> bool {
    match outcome {
        FetchOutcome::Unavailable => error matches PlayError::FetchFailed(report) && report@
            == "Failed to execute 'yt-dlp'"@,
        FetchOutcome::Exited { success, stderr } => error matches PlayError::FetchFailed(report)
            && report@ == stderr@,
    }
}

/// Whether `action` asks for `item` of the queue to be resolved.
pub open spec fn asks_to_resolve(pre: Model, item: nat, action: Action) -> bool {
    action matches Action::Resolve { args } && texts(args@) == resolver_command(
        pre.queue[item as int],
    )
}

/// Whether `action` starts the renderer on the file of the scheduler's
/// current item.
pub open spec fn asks_to_render(pre: Model, action: Action) -> bool {
    action matches Action::Render { path } && path@ == cache_path(pre.dir, pre.title, pre.id)
}

/// Whether `action` abandons the run because an event came out of turn.
pub open spec fn aborts_out_of_turn(action: Action) -> bool {
    action matches Action::Abort { error } && error is OutOfTurn
}

/// The scheduler and its action once the current item's file is on disk:
/// the first item is rendered at once, every later one after a wait of the
/// length of the item before.
pub open spec fn goes_to_render(pre: Model, post: Model, action: Action) -> bool {
    if pre.index == 0 {
        post == pre.rendering() && asks_to_render(pre, action)
    } else {
        post == pre.waiting(Phase::WaitingBefore, pre.carry_wait) && action == (Action::Wait {
            seconds: pre.carry_wait,
        })
    }
}

/// Whether the scheduler is done with its current item: the renderer was
/// started on it, and either it is one of several and its length is kept
/// for the wait before the next, or it is the only one and was waited out.
pub open spec fn item_is_done(m: Model) -> bool {
    m.phase == Phase::WaitingAfter || (m.phase == Phase::Rendering && m.queue.len() > 1
        && m.carry_wait == m.durations[m.index as int])
}

/// The scheduler and its action once the current item is done with: the
/// next item is resolved, or the run is finished where there is none.
pub open spec fn goes_on(pre: Model, post: Model, action: Action) -> bool {
    if pre.index + 1 < pre.queue.len() {
        post == pre.resolving(pre.index + 1) && asks_to_resolve(pre, pre.index + 1, action)
    } else {
        post == pre.finished() && action is Finish
    }
}

/// The scheduler and its action once the resolver has described the current
/// item as `info`: the item is kept, its length noted, and the cache
/// directory is looked at for its file.
pub open spec fn goes_to_probe(pre: Model, info: VideoInfo, post: Model, action: Action) -> bool {
    &&& post == (Model {
        phase: Phase::Probing,
        title: info.title@,
        id: info.id@,
        seconds: duration_seconds(info.duration@),
        durations: pre.durations.push(duration_seconds(info.duration@)),
        ..pre.logged(Step::Probe { item: pre.index })
    })
    &&& action matches Action::Probe { path } && path@ == cache_path(
        pre.dir,
        info.title@,
        info.id@,
    )
}

/// Whether the scheduler `post` and `action` are the answer of the scheduler
/// `pre` to `event`.
pub open spec fn answers(pre: Model, event: Event, post: Model, action: Action) -> bool {
    match (pre.phase, event) {
        (Phase::Finished, _) => post == pre && action is Finish,
        (Phase::Failed, _) => post == pre && aborts_out_of_turn(action),
        (Phase::Ready, Event::Start) => if pre.queue.len() == 0 {
            post == pre.finished() && action is Finish
        } else {
            post == pre.resolving(0) && asks_to_resolve(pre, 0, action)
        },
        (Phase::Resolving, Event::Resolved(outcome)) => if resolution_fails(outcome) {
            &&& post == pre.failed()
            &&& action matches Action::Abort { error } && resolution_error(outcome, error)
        } else {
            exists|info: VideoInfo|
                {
                    &&& outcome matches ResolverOutcome::Exited { success, stdout, stderr }
                        && describes(info, stdout@)
                    &&& #[trigger] goes_to_probe(pre, info, post, action)
                }
        },
        (Phase::Probing, Event::Probed(exists)) => if exists {
            goes_to_render(pre, post, action)
        } else {
            &&& post == (Model {
                phase: Phase::Fetching,
                ..pre.logged(Step::Fetch { item: pre.index })
            })
            &&& action matches Action::Fetch { args } && texts(args@) == fetch_command(
                pre.id,
                pre.dir,
                pre.quality,
                pre.fragments,
            )
        },
        (Phase::Fetching, Event::Fetched(outcome)) => if fetch_fails(outcome) {
            &&& post == pre.failed()
            &&& action matches Action::Abort { error } && fetch_error(outcome, error)
        } else {
            goes_to_render(pre, post, action)
        },
        (Phase::WaitingBefore, Event::Waited) => post == pre.rendering() && asks_to_render(
            pre,
            action,
        ),
        (Phase::Rendering, Event::Rendered(started)) => match started {
            Err(reason) => {
                &&& post == pre.failed()
                &&& action matches Action::Abort { error }
                    && error matches PlayError::RenderSpawnFailed(report) && report@ == reason@
            },
            Ok(_) => if pre.queue.len() == 1 {
                post == pre.waiting(Phase::WaitingAfter, pre.durations[pre.index as int])
                    && action == (Action::Wait { seconds: pre.durations[pre.index as int] })
            } else {
                goes_on(
                    Model { carry_wait: pre.durations[pre.index as int], ..pre },
                    post,
                    action,
                )
            },
        },
        (Phase::WaitingAfter, Event::Waited) => goes_on(pre, post, action),
        _ => post == pre.failed() && aborts_out_of_turn(action),
    }
}

/// Whether `m` is a scheduler that has asked for nothing yet.
pub open spec fn is_fresh(m: Model) -> bool {
    &&& m.phase == Phase::Ready
    &&& m.index == 0
    &&& m.trace.len() == 0
    &&& m.durations.len() == 0
    &&& m.rendered_at.len() == 0
}

/// A scheduler that has asked for nothing yet is well-formed.
pub proof fn lemma_fresh_is_wf(m: Model)
    requires
        is_fresh(m),
    ensures
        m.wf(),
{
}

/// Every answer of a well-formed scheduler leaves it well-formed: what
/// `wf` says holds at every moment of every run, whatever the events.
pub proof fn lemma_answers_keep_wf(pre: Model, event: Event, post: Model, action: Action)
    requires
        pre.wf(),
        answers(pre, event, post, action),
    ensures
        post.wf(),
{
    // Phase by phase: each answer adds one entry to the record.
    match pre.phase {
        Phase::Ready | Phase::Resolving | Phase::Probing => {
            assert(post.wf());
        },
        Phase::Fetching | Phase::WaitingBefore | Phase::Rendering => {
            assert(post.wf());
        },
        Phase::WaitingAfter | Phase::Finished | Phase::Failed => {
            assert(post.wf());
        },
    }
}

/// The items play in turn: wherever the renderer was asked to start on an
/// item other than the first, the action handed out just before was a wait of
/// the length of the item before, and that wait was handed out after the
/// renderer had been asked to start on the item before.
pub proof fn lemma_render_follows_wait(m: Model, t: int, item: nat)
    requires
        m.wf(),
        0 <= t < m.trace.len(),
        m.trace[t] == (Step::Render { item }),
        item >= 1,
    ensures
        t >= 2,
        item < m.durations.len(),
        m.trace[t - 1] == (Step::Wait { seconds: m.durations[item - 1] }),
        exists|u: int| 0 <= u < t - 1 && m.trace[u] == (Step::Render { item: (item - 1) as nat }),
{
    let j = item as int;
    let i = j - 1;
    assert(m.rendered_at[j] == t);
    assert(m.rendered_at[i] < m.rendered_at[j] - 1);
    assert(m.trace[m.rendered_at[i]] == (Step::Render { item: i as nat }));
}

/// The renderer is asked to start on each item at most once, and on the
/// items in the order of the queue.
pub proof fn lemma_renders_in_order(m: Model, t: int, u: int, first: nat, second: nat)
    requires
        m.wf(),
        0 <= t < u < m.trace.len(),
        m.trace[t] == (Step::Render { item: first }),
        m.trace[u] == (Step::Render { item: second }),
    ensures
        first < second,
    decreases first,
{
    assert(m.rendered_at[first as int] == t);
    assert(m.rendered_at[second as int] == u);
    if first >= second {
        assert(first != second);
        lemma_render_places_rise(m, second as int, first as int);
    }
}

/// The places of the `Render` actions in the record rise with the items.
pub proof fn lemma_render_places_rise(m: Model, i: int, j: int)
    requires
        m.wf(),
        0 <= i < j < m.rendered_at.len(),
    ensures
        m.rendered_at[i] < m.rendered_at[j],
    decreases j - i,
{
    if i + 1 < j {
        lemma_render_places_rise(m, i, j - 1);
    }
    assert(m.rendered_at[j - 1] < m.rendered_at[j] - 1);
}

/// A queue of one item is waited out once: the only wait of the whole run
/// is for the length of that item and stands directly behind its `Render`,
/// and a run that ended in success has handed out exactly that wait before
/// it finished.
pub proof fn lemma_single_item_waits_once(m: Model)
    requires
        m.wf(),
        m.queue.len() == 1,
    ensures
        forall|t: int|
            0 <= t < m.trace.len() && (#[trigger] m.trace[t]) is Wait ==> t >= 1 && m.trace[t - 1]
                == (Step::Render { item: 0 }) && m.trace[t] == (Step::Wait {
                seconds: m.durations[0],
            }),
        forall|t: int, u: int|
            0 <= t < m.trace.len() && 0 <= u < m.trace.len() && (#[trigger] m.trace[t]) is Wait && (
            #[trigger] m.trace[u]) is Wait ==> t == u,
        m.phase == Phase::Finished ==> m.trace.len() >= 3 && m.trace[m.trace.len() - 3] == (
        Step::Render { item: 0 }) && m.trace[m.trace.len() - 2] == (Step::Wait {
            seconds: m.durations[0],
        }) && m.trace[m.trace.len() - 1] == Step::Finish,
{
    assert forall|t: int| 0 <= t < m.trace.len() && (#[trigger] m.trace[t]) is Wait implies t >= 1
        && m.trace[t - 1] == (Step::Render { item: 0 }) && m.trace[t] == (Step::Wait {
        seconds: m.durations[0],
    }) by {
        assert(m.rendered_at[0] == t - 1);
    }
    if m.phase == Phase::Finished {
        assert(m.rendered_at[0] == m.trace.len() - 3);
    }
}

/// An empty queue asks for nothing: no action is ever handed out but the
/// one that ends the run.
pub proof fn lemma_empty_queue_asks_nothing(m: Model)
    requires
        m.wf(),
        m.queue.len() == 0,
    ensures
        forall|t: int|
            0 <= t < m.trace.len() ==> (#[trigger] m.trace[t]) is Finish || m.trace[t] is Abort,
        m.trace.len() <= 1,
{
    if m.trace.len() > 1 {
        assert(m.trace[0] is Finish || m.trace[0] is Abort);
    }
}

/// Empty input ends the run at once, with success: the queue of a line that
/// is empty once trimmed holds no query, and the scheduler of such a queue
/// answers the start of the run by finishing it, having asked for nothing.
pub proof fn lemma_empty_input_finishes(
    input: Seq<char>,
    pre: Model,
    post: Model,
    action: Action,
)
    requires
        trimmed(input).len() == 0,
        is_fresh(pre),
        pre.queue == queue_of(input),
        answers(pre, Event::Start, post, action),
    ensures
        action is Finish,
        post.phase == Phase::Finished,
        post.trace == seq![Step::Finish],
{
    assert(post.trace =~= seq![Step::Finish]);
}

/// A failure of the resolver ends the run where it stands: the scheduler
/// stays at the item that failed, hands out nothing but the failure, and of
/// all the actions it ever handed out none was for a later item.
pub proof fn lemma_resolver_failure_stops(
    pre: Model,
    outcome: ResolverOutcome,
    post: Model,
    action: Action,
)
    requires
        pre.wf(),
        post.wf(),
        pre.phase == Phase::Resolving,
        resolution_fails(outcome),
        answers(pre, Event::Resolved(outcome), post, action),
    ensures
        post.phase == Phase::Failed,
        post.index == pre.index,
        action is Abort,
        post.trace == pre.trace.push(Step::Abort),
        forall|t: int|
            0 <= t < post.trace.len() ==> (item_of(#[trigger] post.trace[t]) matches Some(item)
                ==> item <= pre.index),
{
    assert forall|t: int| 0 <= t < post.trace.len() implies (item_of(
        #[trigger] post.trace[t],
    ) matches Some(item) ==> item <= pre.index) by {
        if post.trace[t] is Render {
            assert(post.rendered_at.len() <= post.index + 1);
        }
    }
}

/// A run that was abandoned stays abandoned: whatever event comes, the
/// scheduler does not change and hands out no action for any item.
pub proof fn lemma_failed_is_final(pre: Model, event: Event, post: Model, action: Action)
    requires
        pre.phase == Phase::Failed,
        answers(pre, event, post, action),
    ensures
        post == pre,
        action is Abort,
{
}

/// The fetcher is asked for only after the cache directory was found not to
/// hold the item's file: a file that exists is never fetched again.
pub proof fn lemma_fetch_only_on_miss(pre: Model, event: Event, post: Model, action: Action)
    requires
        pre.wf(),
        answers(pre, event, post, action),
        action is Fetch,
    ensures
        pre.phase == Phase::Probing,
        event == Event::Probed(false),
{
}

/// The scheduler of one queue.
pub struct Scheduler {
    queue: Vec<String>,
    dir: String,
    settings: Settings,
    index: usize,
    phase: Phase,
    carry_wait: u64,
    item: VideoInfo,
    seconds: u64,
    trace: Ghost<Seq<Step>>,
    durations: Ghost<Seq<u64>>,
    rendered_at: Ghost<Seq<int>>,
}

impl View for Scheduler {
    type V = Model;

    closed spec fn view(&self) -> Model {
        Model {
            queue: texts(self.queue@),
            dir: self.dir@,
            quality: self.settings.audio_quality@,
            fragments: self.settings.concurrent_fragments@,
            index: self.index as nat,
            phase: self.phase,
            carry_wait: self.carry_wait,
            title: self.item.title@,
            id: self.item.id@,
            seconds: self.seconds,
            trace: self.trace@,
            durations: self.durations@,
            rendered_at: self.rendered_at@,
        }
    }
}

impl Scheduler {
    /// A scheduler for the queries of `queue`, with the cache directory
    /// `dir`. It has asked for nothing yet and waits for `Event::Start`.
    pub fn new(queue: Vec<String>, dir: String, settings: Settings) -> (out: Scheduler)
        ensures
            out@.wf(),
            is_fresh(out@),
            out@.queue == texts(queue@),
            out@.dir == dir@,
            out@.quality == settings.audio_quality@,
            out@.fragments == settings.concurrent_fragments@,
    {
        Scheduler {
            queue,
            dir,
            settings,
            index: 0,
            phase: Phase::Ready,
            carry_wait: 0,
            item: VideoInfo {
                duration: String::new(),
                title: String::new(),
                url: String::new(),
                id: String::new(),
            },
            seconds: 0,
            trace: Ghost(Seq::empty()),
            durations: Ghost(Seq::empty()),
            rendered_at: Ghost(Seq::empty()),
        }
    }

    /// Which answer the scheduler is waiting for.
    pub fn phase(&self) -> (out: Phase)
        ensures
            out == self@.phase,
    {
        self.phase
    }

    /// The position in the queue of the current item.
    pub fn index(&self) -> (out: usize)
        ensures
            out == self@.index,
    {
        self.index
    }

    /// Whether the run has ended, in success or in failure.
    pub fn is_over(&self) -> (out: bool)
        ensures
            out == (self@.phase == Phase::Finished || self@.phase == Phase::Failed),
    {
        self.phase == Phase::Finished || self.phase == Phase::Failed
    }

    /// Abandons the run with `error`.
    fn abort(&mut self, error: PlayError) -> (action: Action)
        requires
            old(self)@.wf(),
            old(self)@.phase != Phase::Finished,
            old(self)@.phase != Phase::Failed,
        ensures
            final(self)@.wf(),
            final(self)@ == old(self)@.failed(),
            action == (Action::Abort { error }),
    {
        self.phase = Phase::Failed;
        self.trace = Ghost(self.trace@.push(Step::Abort));
        Action::Abort { error }
    }

    /// Ends the run with success.
    fn finish(&mut self) -> (action: Action)
        requires
            old(self)@.wf(),
            old(self)@.phase == Phase::Ready && old(self)@.queue.len() == 0 || item_is_done(
                old(self)@,
            ) && old(self)@.index + 1 == old(self)@.queue.len(),
        ensures
            final(self)@.wf(),
            final(self)@ == old(self)@.finished(),
            action is Finish,
    {
        self.phase = Phase::Finished;
        self.index = self.queue.len();
        self.trace = Ghost(self.trace@.push(Step::Finish));
        Action::Finish
    }

    /// Asks for `item` of the queue to be resolved.
    fn begin(&mut self, item: usize) -> (action: Action)
        requires
            old(self)@.wf(),
            item < old(self)@.queue.len(),
            old(self)@.phase == Phase::Ready && item == 0 || item_is_done(old(self)@) && item
                == old(self)@.index + 1,
        ensures
            final(self)@.wf(),
            final(self)@ == old(self)@.resolving(item as nat),
            asks_to_resolve(old(self)@, item as nat, action),
    {
        self.phase = Phase::Resolving;
        self.index = item;
        self.trace = Ghost(self.trace@.push(Step::Resolve { item: item as nat }));
        Action::Resolve { args: resolver_args(self.queue[item].as_str()) }
    }

    /// Goes on to the next item, or ends the run where there is none.
    fn advance(&mut self) -> (action: Action)
        requires
            old(self)@.wf(),
            item_is_done(old(self)@),
        ensures
            final(self)@.wf(),
            goes_on(old(self)@, final(self)@, action),
    {
        let count: usize = self.queue.len();
        assert(self@.index < self@.queue.len());
        if self.index + 1 < count {
            self.begin(self.index + 1)
        } else {
            self.finish()
        }
    }

    /// Asks for the renderer to be started on the current item.
    fn render(&mut self) -> (action: Action)
        requires
            old(self)@.wf(),
            old(self)@.phase == Phase::WaitingBefore || (old(self)@.index == 0 && (old(
                self,
            )@.phase == Phase::Probing || old(self)@.phase == Phase::Fetching)),
        ensures
            final(self)@.wf(),
            final(self)@ == old(self)@.rendering(),
            asks_to_render(old(self)@, action),
    {
        let path: String = path_of(self.dir.as_str(), &self.item);
        self.phase = Phase::Rendering;
        self.rendered_at = Ghost(self.rendered_at@.push(self.trace@.len() as int));
        self.trace = Ghost(self.trace@.push(Step::Render { item: self.index as nat }));
        Action::Render { path }
    }

    /// Asks for what comes once the current item's file is on disk.
    fn before_render(&mut self) -> (action: Action)
        requires
            old(self)@.wf(),
            old(self)@.phase == Phase::Probing || old(self)@.phase == Phase::Fetching,
        ensures
            final(self)@.wf(),
            goes_to_render(old(self)@, final(self)@, action),
    {
        if self.index == 0 {
            self.render()
        } else {
            self.phase = Phase::WaitingBefore;
            self.trace = Ghost(self.trace@.push(Step::Wait { seconds: self.carry_wait }));
            Action::Wait { seconds: self.carry_wait }
        }
    }

    /// Keeps the item that the resolver described and asks for a look at
    /// the cache directory.
    fn probe(&mut self, info: VideoInfo) -> (action: Action)
        requires
            old(self)@.wf(),
            old(self)@.phase == Phase::Resolving,
        ensures
            final(self)@.wf(),
            goes_to_probe(old(self)@, info, final(self)@, action),
    {
        let path: String = path_of(self.dir.as_str(), &info);
        self.seconds = duration_to_seconds(info.duration.as_str());
        self.item = info;
        self.phase = Phase::Probing;
        self.durations = Ghost(self.durations@.push(self.seconds));
        self.trace = Ghost(self.trace@.push(Step::Probe { item: self.index as nat }));
        Action::Probe { path }
    }

    /// Takes what came of the last action and says what to do next.
    ///
    /// The run goes item by item: resolve, look for the file, fetch it
    /// where it is missing, wait out the item before, render. Any failure
    /// ends the run at once. An event that does not answer the action asked
    /// for last ends it too, and a run that has ended stays as it is.
    pub fn step(&mut self, event: Event) -> (action: Action)
        requires
            old(self)@.wf(),
        ensures
            final(self)@.wf(),
            answers(old(self)@, event, final(self)@, action),
    {
        if self.phase == Phase::Finished {
            return Action::Finish;
        }
        if self.phase == Phase::Failed {
            return Action::Abort { error: PlayError::OutOfTurn };
        }
        match event {
            Event::Start => {
                if self.phase == Phase::Ready {
                    if self.queue.len() == 0 {
                        self.finish()
                    } else {
                        self.begin(0)
                    }
                } else {
                    self.abort(PlayError::OutOfTurn)
                }
            },
            Event::Resolved(outcome) => {
                if self.phase == Phase::Resolving {
                    match get_info(outcome) {
                        Ok(info) => self.probe(info),
                        Err(error) => self.abort(error),
                    }
                } else {
                    self.abort(PlayError::OutOfTurn)
                }
            },
            Event::Probed(exists) => {
                if self.phase == Phase::Probing {
                    match ensure_local(&self.item, self.dir.as_str(), &self.settings, exists) {
                        Local::Hit { path } => self.before_render(),
                        Local::Fetch { path, args } => {
                            self.phase = Phase::Fetching;
                            self.trace = Ghost(
                                self.trace@.push(Step::Fetch { item: self.index as nat }),
                            );
                            Action::Fetch { args }
                        },
                    }
                } else {
                    self.abort(PlayError::OutOfTurn)
                }
            },
            Event::Fetched(outcome) => {
                if self.phase == Phase::Fetching {
                    match download(outcome) {
                        Ok(_) => self.before_render(),
                        Err(error) => self.abort(error),
                    }
                } else {
                    self.abort(PlayError::OutOfTurn)
                }
            },
            Event::Waited => {
                if self.phase == Phase::WaitingBefore {
                    self.render()
                } else if self.phase == Phase::WaitingAfter {
                    self.advance()
                } else {
                    self.abort(PlayError::OutOfTurn)
                }
            },
            Event::Rendered(started) => {
                if self.phase == Phase::Rendering {
                    match started {
                        Ok(_) => {
                            if self.queue.len() == 1 {
                                self.phase = Phase::WaitingAfter;
                                self.trace = Ghost(
                                    self.trace@.push(Step::Wait { seconds: self.seconds }),
                                );
                                Action::Wait { seconds: self.seconds }
                            } else {
                                self.carry_wait = self.seconds;
                                self.advance()
                            }
                        },
                        Err(reason) => self.abort(PlayError::RenderSpawnFailed(reason)),
                    }
                } else {
                    self.abort(PlayError::OutOfTurn)
                }
            },
        }
    }
}

} // verus!
