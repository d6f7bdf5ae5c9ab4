//! The clock: local time, or the time of a remote timezone kept as an
//! offset from local time. Fetching the offset needs the network, so every
//! operation that may fetch is a state machine: it hands out the requests
//! to make and is given each reply, together with a fresh clock reading.
use vstd::prelude::*;
use crate::chain::{
    answer_spec, chain_kinds, chain_outcome, lemma_fetch_is_first_success, lemma_scan_range,
    position_of, run_ask, selection_for, start_spec, FetchProgress, FetchStep, ProviderChain,
    ProviderTimeInfo, StepSpec,
};
use crate::config::{add_timezone_spec, normalized, ClockCoreConfig};
use crate::providers::{request_view, ClockResult, HttpRequest, TimeInfo};
use crate::text::{after_last, after_last_exec, chars_of, pad2, push_char, push_pad2, push_str, string_of, strs};

verus! {

/// The default time between two fetches of a remote offset: one hour, in nanoseconds.
pub const DEFAULT_NETWORK_REFRESH_INTERVAL_NS: u64 = 3_600_000_000_000;

/// Where the displayed time comes from.
#[derive(Clone, Debug)]
pub enum ClockSource {
    Local,
    /// A remote timezone, `offset_min` minutes ahead of local time.
    Network { timezone: String, offset_min: i32 },
}

/// What the clock shows.
#[derive(Clone, Debug)]
pub struct ClockSnapshot {
    pub ok: bool,
    pub label: String,
    pub text: String,
    pub tooltip: String,
    pub source: String,
    pub timezone: Option<String>,
    pub provider: Option<String>,
    pub error: Option<String>,
}

/// A reading of the machine's clocks: a monotonic instant in nanoseconds
/// and the local wall-clock time.
#[derive(Clone, Copy, Debug)]
pub struct ClockReading {
    pub now_ns: u64,
    pub hour: u16,
    pub minute: u16,
    pub second: u16,
}

/// What a fetch of the offset is for.
#[derive(Clone, Copy, Debug)]
pub enum ClockTask {
    /// A tick found the offset too old.
    Tick,
    /// The user switched to a timezone.
    Switch,
    /// The tick that ends a switch found the new offset already too old.
    SwitchTick,
    /// An explicit refresh of the offset.
    Refresh,
}

/// The result of a finished operation.
#[derive(Debug)]
pub enum ClockOutcome {
    /// The answer to a tick.
    Snapshot(ClockSnapshot),
    /// The answer to a switch to a timezone.
    Switched(ClockResult<ClockSnapshot>),
    /// The answer to a refresh of the offset.
    Refreshed(ClockResult<()>),
}

/// What the caller is to do next: make a request and hand its reply to
/// `resume`; or, once a switch has its offset, call `tick` with a fresh
/// reading, which ends the switch and answers `Switched`; or take the outcome.
#[derive(Debug)]
pub enum ClockStep {
    Fetch(HttpRequest),
    Tick,
    Done(ClockOutcome),
}

/// A fetch that waits for a reply.
struct Pending {
    task: ClockTask,
    timezone: String,
    progress: FetchProgress,
}

/// The clock: its configuration, the chain of services and what it shows.
pub struct ClockCore {
    config: ClockCoreConfig,
    providers: ProviderChain,
    source: ClockSource,
    last_sync_ns: u64,
    last_provider: Option<String>,
    network_refresh_interval_ns: u64,
    pending: Option<Pending>,
    /// A switch has its offset and waits for the tick that ends it.
    closing_switch: bool,
}

// ---------------------------------------------------------------------------
// The model
// ---------------------------------------------------------------------------

pub open spec fn opt_str(o: Option<String>) -> Option<Seq<char>> {
    match o {
        Some(s) => Some(s@),
        None => None,
    }
}

/// A snapshot as values.
pub struct SnapshotView {
    pub ok: bool,
    pub label: Seq<char>,
    pub text: Seq<char>,
    pub tooltip: Seq<char>,
    pub source: Seq<char>,
    pub timezone: Option<Seq<char>>,
    pub provider: Option<Seq<char>>,
    pub error: Option<Seq<char>>,
}

pub open spec fn snapshot_view(s: ClockSnapshot) -> SnapshotView {
    SnapshotView {
        ok: s.ok,
        label: s.label@,
        text: s.text@,
        tooltip: s.tooltip@,
        source: s.source@,
        timezone: opt_str(s.timezone),
        provider: opt_str(s.provider),
        error: opt_str(s.error),
    }
}

/// A waiting fetch as values.
pub struct PendingView {
    pub task: ClockTask,
    pub timezone: String,
    pub provider: int,
    pub manual: bool,
    pub errors: Seq<Seq<char>>,
}

/// The clock as values.
pub struct ClockView {
    pub config: ClockCoreConfig,
    pub kinds: Seq<crate::providers::ProviderKind>,
    pub active: Option<usize>,
    pub source: ClockSource,
    pub last_sync_ns: u64,
    pub last_provider: Option<Seq<char>>,
    pub interval_ns: u64,
    pub pending: Option<PendingView>,
    pub closing: bool,
}

/// An outcome as values.
pub enum OutcomeView {
    Snapshot(SnapshotView),
    Switched(Result<SnapshotView, Seq<char>>),
    Refreshed(Result<(), Seq<char>>),
}

/// A step as values.
pub enum ClockStepView {
    Fetch((Seq<char>, u16, Seq<char>)),
    Tick,
    Done(OutcomeView),
}

pub open spec fn outcome_view(o: ClockOutcome) -> OutcomeView {
    match o {
        ClockOutcome::Snapshot(s) => OutcomeView::Snapshot(snapshot_view(s)),
        ClockOutcome::Switched(Ok(s)) => OutcomeView::Switched(Ok(snapshot_view(s))),
        ClockOutcome::Switched(Err(e)) => OutcomeView::Switched(Err(e@)),
        ClockOutcome::Refreshed(Ok(())) => OutcomeView::Refreshed(Ok(())),
        ClockOutcome::Refreshed(Err(e)) => OutcomeView::Refreshed(Err(e@)),
    }
}

pub open spec fn clock_step_view(s: ClockStep) -> ClockStepView {
    match s {
        ClockStep::Fetch(r) => ClockStepView::Fetch(request_view(r)),
        ClockStep::Tick => ClockStepView::Tick,
        ClockStep::Done(o) => ClockStepView::Done(outcome_view(o)),
    }
}

/// The label of a timezone: its city with underscores shown as spaces.
pub open spec fn timezone_label_spec(tz: Seq<char>) -> Seq<char> {
    after_last(tz, '/').map_values(|c: char| if c == '_' { ' ' } else { c })
}

/// `label hh:mm:ss`, each number in at least two digits.
pub open spec fn clock_text(label: Seq<char>, h: nat, m: nat, s: nat) -> Seq<char> {
    label + seq![' '] + pad2(h) + seq![':'] + pad2(m) + seq![':'] + pad2(s)
}

/// The minute of the day in a timezone `offset` minutes ahead of the local
/// time `h:m`.
pub open spec fn remote_minutes(h: int, m: int, offset: int) -> int {
    (h * 60 + m + offset) % 1440
}

/// The offset in minutes from local `h:m` to the remote time `remote`,
/// brought into `-720..=720` by a day's shift where it lies beyond.
pub open spec fn offset_spec(remote: TimeInfo, h: int, m: int) -> int {
    let diff = (remote.hour * 60 + remote.minute) - (h * 60 + m);
    if diff > 720 {
        diff - 1440
    } else if diff < -720 {
        diff + 1440
    } else {
        diff
    }
}

/// What the clock shows in local mode.
pub open spec fn local_snapshot_spec(c: ClockReading) -> SnapshotView {
    SnapshotView {
        ok: true,
        label: "Local"@,
        text: clock_text("Local"@, c.hour as nat, c.minute as nat, c.second as nat),
        tooltip: "Local system time"@,
        source: "local"@,
        timezone: None,
        provider: None,
        error: None,
    }
}

/// What the clock shows for a remote timezone.
pub open spec fn network_snapshot_spec(
    tz: Seq<char>,
    offset: int,
    provider: Option<Seq<char>>,
    c: ClockReading,
) -> SnapshotView {
    let total = remote_minutes(c.hour as int, c.minute as int, offset);
    let label = timezone_label_spec(tz);
    SnapshotView {
        ok: true,
        label,
        text: clock_text(label, (total / 60) as nat, (total % 60) as nat, c.second as nat),
        tooltip: tz + match provider {
            Some(p) => " via "@ + p,
            None => Seq::empty(),
        },
        source: "network"@,
        timezone: Some(tz),
        provider,
        error: None,
    }
}

/// What the clock shows after a failure.
pub open spec fn error_snapshot_spec(message: Seq<char>) -> SnapshotView {
    SnapshotView {
        ok: false,
        label: "Clock"@,
        text: "Clock error"@,
        tooltip: message,
        source: "error"@,
        timezone: None,
        provider: None,
        error: Some(message),
    }
}

/// What the clock shows now, from its source.
pub open spec fn current_snapshot_spec(v: ClockView, c: ClockReading) -> SnapshotView {
    match v.source {
        ClockSource::Local => local_snapshot_spec(c),
        ClockSource::Network { timezone, offset_min } => network_snapshot_spec(
            timezone@,
            offset_min as int,
            v.last_provider,
            c,
        ),
    }
}

/// Whether more time than the refresh interval has passed since the last
/// fetch (the monotonic clock never counts backwards).
pub open spec fn refresh_due(v: ClockView, c: ClockReading) -> bool {
    (if c.now_ns >= v.last_sync_ns {
        c.now_ns - v.last_sync_ns
    } else {
        0
    }) > v.interval_ns
}

pub open spec fn without_pending(v: ClockView) -> ClockView {
    ClockView { pending: None, ..v }
}

/// The clock with nothing under way: no fetch waits, no switch waits for
/// its closing tick.
pub open spec fn idle(v: ClockView) -> ClockView {
    ClockView { pending: None, closing: false, ..v }
}

/// What a tick answers: a snapshot, or, when it ends a switch, the switch's
/// answer with that snapshot.
pub open spec fn tick_outcome(closing: bool, s: SnapshotView) -> OutcomeView {
    if closing {
        OutcomeView::Switched(Ok(s))
    } else {
        OutcomeView::Snapshot(s)
    }
}

/// The end of a fetch for `tz`: on success the offset is set from the
/// reading `c`, the service remembered and the sync time updated; a switch
/// then remembers the timezone and waits for its closing tick, the tick
/// that the switch ends with. A failure changes nothing; a closing tick
/// whose fetch fails still ends the switch, answering the error snapshot.
pub open spec fn finish_spec(
    v: ClockView,
    task: ClockTask,
    tz: String,
    r: Result<(Seq<char>, TimeInfo), Seq<char>>,
    c: ClockReading,
) -> (ClockView, ClockStepView) {
    match r {
        Ok((name, info)) => {
            let offset = offset_spec(info, c.hour as int, c.minute as int);
            let config = match task {
                ClockTask::Switch => ClockCoreConfig { last_selected_timezone: Some(tz), ..v.config },
                _ => v.config,
            };
            let after = ClockView {
                config,
                source: ClockSource::Network { timezone: tz, offset_min: offset as i32 },
                last_sync_ns: c.now_ns,
                last_provider: Some(name),
                pending: None,
                ..v
            };
            let snapshot = network_snapshot_spec(tz@, offset, Some(name), c);
            match task {
                ClockTask::Tick => (after, ClockStepView::Done(OutcomeView::Snapshot(snapshot))),
                ClockTask::Switch => (ClockView { closing: true, ..after }, ClockStepView::Tick),
                ClockTask::SwitchTick => (after, ClockStepView::Done(OutcomeView::Switched(Ok(snapshot)))),
                ClockTask::Refresh => (after, ClockStepView::Done(OutcomeView::Refreshed(Ok(())))),
            }
        },
        Err(e) => {
            let outcome = match task {
                ClockTask::Tick => OutcomeView::Snapshot(error_snapshot_spec(e)),
                ClockTask::Switch => OutcomeView::Switched(Err(e)),
                ClockTask::SwitchTick => OutcomeView::Switched(Ok(error_snapshot_spec(e))),
                ClockTask::Refresh => OutcomeView::Refreshed(Err(e)),
            };
            (without_pending(v), ClockStepView::Done(outcome))
        },
    }
}

/// The start of a fetch of the offset for `tz`.
pub open spec fn begin_spec(v: ClockView, task: ClockTask, tz: String, c: ClockReading) -> (ClockView, ClockStepView) {
    match start_spec(v.kinds, v.active, tz@) {
        StepSpec::Ask { provider, manual, errors, request } => (
            ClockView {
                pending: Some(PendingView { task, timezone: tz, provider, manual, errors }),
                ..v
            },
            ClockStepView::Fetch(request),
        ),
        StepSpec::Done(r) => finish_spec(without_pending(v), task, tz, r, c),
    }
}

/// A tick: a remote timezone whose offset is older than the interval is
/// fetched again first; otherwise the current time is shown. A tick that
/// ends a switch answers for the switch.
pub open spec fn tick_spec(v: ClockView, c: ClockReading) -> (ClockView, ClockStepView) {
    let task = if v.closing {
        ClockTask::SwitchTick
    } else {
        ClockTask::Tick
    };
    match v.source {
        ClockSource::Network { timezone, .. } => if refresh_due(v, c) {
            begin_spec(idle(v), task, timezone, c)
        } else {
            (idle(v), ClockStepView::Done(tick_outcome(v.closing, current_snapshot_spec(v, c))))
        },
        ClockSource::Local => (idle(v), ClockStepView::Done(tick_outcome(v.closing, current_snapshot_spec(v, c)))),
    }
}

/// The step after the waiting fetch got the reply `http`.
pub open spec fn resume_spec(v: ClockView, http: Result<Seq<char>, Seq<char>>, c: ClockReading) -> (ClockView, ClockStepView)
    recommends
        v.pending is Some,
{
    let p = v.pending->Some_0;
    match answer_spec(v.kinds, p.timezone@, p.provider, p.manual, p.errors, http) {
        StepSpec::Ask { provider, manual, errors, request } => (
            ClockView {
                pending: Some(PendingView { task: p.task, timezone: p.timezone, provider, manual, errors }),
                ..v
            },
            ClockStepView::Fetch(request),
        ),
        StepSpec::Done(r) => finish_spec(without_pending(v), p.task, p.timezone, r, c),
    }
}

/// The fetch result: a time and the service's name, or an error.
pub open spec fn fetch_result_view(r: ClockResult<ProviderTimeInfo>) -> Result<(Seq<char>, TimeInfo), Seq<char>> {
    match r {
        Ok(t) => Ok((t.provider_name@, t.info)),
        Err(e) => Err(e@),
    }
}

/// A transport reply as values.
pub open spec fn http_view(r: ClockResult<String>) -> Result<Seq<char>, Seq<char>> {
    match r {
        Ok(b) => Ok(b@),
        Err(e) => Err(e@),
    }
}

// ---------------------------------------------------------------------------
// Executable code
// ---------------------------------------------------------------------------

/// The label of a timezone: its city, underscores shown as spaces.
pub fn timezone_label(timezone: &str) -> (r: String)
    ensures
        r@ == timezone_label_spec(timezone@),
{
    let t = chars_of(timezone);
    let city = after_last_exec(t.as_slice(), '/');
    let mut out: Vec<char> = Vec::new();
    let mut i: usize = 0;
    while i < city.len()
        invariant
            i <= city.len(),
            out@ == city@.take(i as int).map_values(|c: char| if c == '_' { ' ' } else { c }),
        decreases city.len() - i,
    {
        let c = city[i];
        out.push(if c == '_' { ' ' } else { c });
        assert(city@.take(i + 1).map_values(|c: char| if c == '_' { ' ' } else { c }) =~= city@.take(
            i as int,
        ).map_values(|c: char| if c == '_' { ' ' } else { c }).push(if c == '_' { ' ' } else { c }));
        i += 1;
    }
    assert(city@.take(city.len() as int) =~= city@);
    string_of(out.as_slice())
}

/// Appends ` hh:mm:ss` to `out`.
pub(crate) fn push_clock_digits(out: &mut String, h: u32, m: u32, s: u32)
    ensures
        final(out)@ == old(out)@ + seq![' '] + pad2(h as nat) + seq![':'] + pad2(m as nat) + seq![':']
            + pad2(s as nat),
{
    push_char(out, ' ');
    push_pad2(out, h);
    push_char(out, ':');
    push_pad2(out, m);
    push_char(out, ':');
    push_pad2(out, s);
    assert(final(out)@ =~= old(out)@ + seq![' '] + pad2(h as nat) + seq![':'] + pad2(m as nat) + seq![
        ':',
    ] + pad2(s as nat));
}

/// What the clock shows in local mode.
pub fn local_snapshot(c: ClockReading) -> (r: ClockSnapshot)
    ensures
        snapshot_view(r) == local_snapshot_spec(c),
{
    let mut text = "Local".to_owned();
    push_clock_digits(&mut text, c.hour as u32, c.minute as u32, c.second as u32);
    ClockSnapshot {
        ok: true,
        label: "Local".to_owned(),
        text,
        tooltip: "Local system time".to_owned(),
        source: "local".to_owned(),
        timezone: None,
        provider: None,
        error: None,
    }
}

/// The minute of the day `offset` minutes ahead of local `h:m`.
pub fn remote_minutes_exec(h: u16, m: u16, offset: i32) -> (r: u32)
    ensures
        r == remote_minutes(h as int, m as int, offset as int),
        r < 1440,
{
    let t: i64 = h as i64 * 60 + m as i64 + offset as i64;
    let r: i64 = if t % 1440 < 0 {
        t % 1440 + 1440
    } else {
        t % 1440
    };
    assert(r == (h as int * 60 + m as int + offset as int) % 1440);
    r as u32
}

/// What the clock shows for the remote timezone `timezone`.
pub fn network_snapshot(timezone: &String, offset: i32, provider: &Option<String>, c: ClockReading) -> (r: ClockSnapshot)
    ensures
        snapshot_view(r) == network_snapshot_spec(timezone@, offset as int, opt_str(*provider), c),
{
    let total = remote_minutes_exec(c.hour, c.minute, offset);
    let label = timezone_label(timezone.as_str());
    let mut text = label.clone();
    push_clock_digits(&mut text, total / 60, total % 60, c.second as u32);
    let mut tooltip = timezone.clone();
    match provider {
        Some(p) => {
            push_str(&mut tooltip, " via ");
            push_str(&mut tooltip, p.as_str());
            assert(tooltip@ =~= timezone@ + (" via "@ + p@));
        },
        None => {
            assert(tooltip@ =~= timezone@ + Seq::<char>::empty());
        },
    }
    let provider_copy = match provider {
        Some(p) => Some(p.clone()),
        None => None,
    };
    ClockSnapshot {
        ok: true,
        label,
        text,
        tooltip,
        source: "network".to_owned(),
        timezone: Some(timezone.clone()),
        provider: provider_copy,
        error: None,
    }
}

/// The offset from local `h:m` to the reported time, within half a day.
pub fn offset_minutes(remote: TimeInfo, h: u16, m: u16) -> (r: i32)
    ensures
        r == offset_spec(remote, h as int, m as int),
{
    let remote_total: i32 = remote.hour as i32 * 60 + remote.minute as i32;
    let local_total: i32 = h as i32 * 60 + m as i32;
    let mut diff = remote_total - local_total;
    if diff > 720 {
        diff -= 1440;
    } else if diff < -720 {
        diff += 1440;
    }
    diff
}

impl ClockSnapshot {
    /// What the clock shows after a failure with `message`.
    pub fn error(message: String) -> (r: ClockSnapshot)
        ensures
            snapshot_view(r) == error_snapshot_spec(message@),
    {
        ClockSnapshot {
            ok: false,
            label: "Clock".to_owned(),
            text: "Clock error".to_owned(),
            tooltip: message.clone(),
            source: "error".to_owned(),
            timezone: None,
            provider: None,
            error: Some(message),
        }
    }
}

impl View for ClockCore {
    type V = ClockView;

    closed spec fn view(&self) -> ClockView {
        ClockView {
            config: self.config,
            kinds: self.providers.kinds(),
            active: self.providers.active(),
            source: self.source,
            last_sync_ns: self.last_sync_ns,
            last_provider: opt_str(self.last_provider),
            interval_ns: self.network_refresh_interval_ns,
            pending: match self.pending {
                Some(p) => Some(
                    PendingView {
                        task: p.task,
                        timezone: p.timezone,
                        provider: p.progress.provider as int,
                        manual: p.progress.manual,
                        errors: strs(p.progress.errors@),
                    },
                ),
                None => None,
            },
            closing: self.closing_switch,
        }
    }
}

impl ClockCore {
    /// A clock in local mode for `config`, filled in where it lacks
    /// something, with the chain of its services; `now_ns` counts as the
    /// last sync.
    pub fn new(config: ClockCoreConfig, now_ns: u64) -> (r: ClockCore)
        ensures
            normalized(config, r@.config),
            r@.kinds == chain_kinds(r@.config.providers@),
            r@.active is None,
            r@.source == ClockSource::Local,
            r@.last_sync_ns == now_ns,
            r@.last_provider is None,
            r@.interval_ns == DEFAULT_NETWORK_REFRESH_INTERVAL_NS,
            r@.pending is None,
            !r@.closing,
    {
        let mut config = config;
        config.normalize();
        let providers = ProviderChain::from_config(&config.providers);
        ClockCore {
            config,
            providers,
            source: ClockSource::Local,
            last_sync_ns: now_ns,
            last_provider: None,
            network_refresh_interval_ns: DEFAULT_NETWORK_REFRESH_INTERVAL_NS,
            pending: None,
            closing_switch: false,
        }
    }

    /// The configuration.
    pub fn config(&self) -> (r: &ClockCoreConfig)
        ensures
            *r == self@.config,
    {
        &self.config
    }

    /// The configuration, to change it in place. The chain of services is
    /// not rebuilt from it.
    pub fn config_mut(&mut self) -> (r: &mut ClockCoreConfig)
        ensures
            *r == old(self)@.config,
            final(self)@ == (ClockView { config: *final(r), ..old(self)@ }),
    {
        &mut self.config
    }

    /// Where the displayed time comes from.
    pub fn source(&self) -> (r: &ClockSource)
        ensures
            *r == self@.source,
    {
        &self.source
    }

    /// The names offered for selection: automatic fallback, then each service.
    pub fn provider_names(&self) -> (r: Vec<String>)
        ensures
            strs(r@) == crate::chain::provider_names_spec(self@.kinds),
    {
        self.providers.provider_names()
    }

    /// The selected position in the list of names: 0 for automatic mode.
    pub fn active_provider_index(&self) -> (r: usize)
        ensures
            r == position_of(self@.active),
            r <= self@.kinds.len(),
    {
        self.providers.active_index()
    }

    /// Selects by position in the list of names; 0, or a position past the
    /// services, means automatic mode.
    pub fn set_active_provider_index(&mut self, index: usize)
        ensures
            final(self)@ == (ClockView {
                active: selection_for(old(self)@.kinds.len(), index),
                ..old(self)@
            }),
    {
        self.providers.set_active_provider(index);
    }

    /// Sets the time after which a remote offset is fetched again.
    pub fn set_network_refresh_interval(&mut self, interval_ns: u64)
        ensures
            final(self)@ == (ClockView { interval_ns, ..old(self)@ }),
    {
        self.network_refresh_interval_ns = interval_ns;
    }

    /// Adds the zone that `query` finds to the configured timezones.
    pub fn add_timezone(&mut self, query: &str) -> (r: ClockResult<String>)
        ensures
            match r {
                Ok(m) => add_timezone_spec(old(self)@.config, query@) == Ok::<_, Seq<char>>(m@)
                    && final(self)@.config.timezones@ == old(self)@.config.timezones@.push(m),
                Err(e) => add_timezone_spec(old(self)@.config, query@) == Err::<Seq<char>, _>(e@)
                    && final(self)@.config.timezones == old(self)@.config.timezones,
            },
            final(self)@ == (ClockView { config: final(self)@.config, ..old(self)@ }),
            final(self)@.config.providers == old(self)@.config.providers,
            final(self)@.config.iana_timezones == old(self)@.config.iana_timezones,
            final(self)@.config.last_selected_timezone == old(self)@.config.last_selected_timezone,
    {
        self.config.add_timezone(query)
    }

    /// Whether a fetch waits for the reply to its request.
    pub fn is_awaiting_response(&self) -> (r: bool)
        ensures
            r == self@.pending is Some,
    {
        self.pending.is_some()
    }

    /// What the clock shows now, from its source.
    fn current_snapshot(&self, c: ClockReading) -> (r: ClockSnapshot)
        ensures
            snapshot_view(r) == current_snapshot_spec(self@, c),
    {
        match &self.source {
            ClockSource::Local => local_snapshot(c),
            ClockSource::Network { timezone, offset_min } => network_snapshot(
                timezone,
                *offset_min,
                &self.last_provider,
                c,
            ),
        }
    }

    /// The end of a fetch for `timezone`.
    fn finish(&mut self, task: ClockTask, timezone: String, r: ClockResult<ProviderTimeInfo>, c: ClockReading) -> (step: ClockStep)
        ensures
            (final(self)@, clock_step_view(step)) == finish_spec(old(self)@, task, timezone, fetch_result_view(r), c),
    {
        self.pending = None;
        match r {
            Ok(t) => {
                let offset = offset_minutes(t.info, c.hour, c.minute);
                self.last_provider = Some(t.provider_name);
                self.source = ClockSource::Network { timezone: timezone.clone(), offset_min: offset };
                self.last_sync_ns = c.now_ns;
                match task {
                    ClockTask::Tick => {
                        let snapshot = network_snapshot(&timezone, offset, &self.last_provider, c);
                        ClockStep::Done(ClockOutcome::Snapshot(snapshot))
                    },
                    ClockTask::Switch => {
                        self.config.last_selected_timezone = Some(timezone);
                        self.closing_switch = true;
                        ClockStep::Tick
                    },
                    ClockTask::SwitchTick => {
                        let snapshot = network_snapshot(&timezone, offset, &self.last_provider, c);
                        ClockStep::Done(ClockOutcome::Switched(Ok(snapshot)))
                    },
                    ClockTask::Refresh => ClockStep::Done(ClockOutcome::Refreshed(Ok(()))),
                }
            },
            Err(e) => match task {
                ClockTask::Tick => ClockStep::Done(ClockOutcome::Snapshot(ClockSnapshot::error(e))),
                ClockTask::Switch => ClockStep::Done(ClockOutcome::Switched(Err(e))),
                ClockTask::SwitchTick => ClockStep::Done(ClockOutcome::Switched(Ok(ClockSnapshot::error(e)))),
                ClockTask::Refresh => ClockStep::Done(ClockOutcome::Refreshed(Err(e))),
            },
        }
    }

    /// The start of a fetch of the offset for `timezone`.
    fn begin(&mut self, task: ClockTask, timezone: String, c: ClockReading) -> (step: ClockStep)
        ensures
            (final(self)@, clock_step_view(step)) == begin_spec(old(self)@, task, timezone, c),
    {
        match self.providers.start_fetch(timezone.as_str()) {
            FetchStep::Ask { progress, request } => {
                self.pending = Some(Pending { task, timezone, progress });
                ClockStep::Fetch(request)
            },
            FetchStep::Done(r) => {
                self.pending = None;
                self.finish(task, timezone, r, c)
            },
        }
    }

    /// Switches to local time and shows it.
    pub fn switch_to_local(&mut self, c: ClockReading) -> (r: ClockSnapshot)
        ensures
            final(self)@ == (ClockView { source: ClockSource::Local, ..idle(old(self)@) }),
            snapshot_view(r) == local_snapshot_spec(c),
    {
        self.pending = None;
        self.closing_switch = false;
        self.source = ClockSource::Local;
        local_snapshot(c)
    }

    /// One tick of the clock at the reading `c`; after `ClockStep::Tick`
    /// it is the tick that ends the switch.
    pub fn tick(&mut self, c: ClockReading) -> (r: ClockStep)
        ensures
            (final(self)@, clock_step_view(r)) == tick_spec(old(self)@, c),
    {
        let closing = self.closing_switch;
        self.closing_switch = false;
        self.pending = None;
        let task = if closing {
            ClockTask::SwitchTick
        } else {
            ClockTask::Tick
        };
        let refresh: Option<String> = match &self.source {
            ClockSource::Network { timezone, .. } => {
                let elapsed = if c.now_ns >= self.last_sync_ns {
                    c.now_ns - self.last_sync_ns
                } else {
                    0
                };
                if elapsed > self.network_refresh_interval_ns {
                    Some(timezone.clone())
                } else {
                    None
                }
            },
            ClockSource::Local => None,
        };
        match refresh {
            Some(timezone) => self.begin(task, timezone, c),
            None => {
                let snapshot = self.current_snapshot(c);
                if closing {
                    ClockStep::Done(ClockOutcome::Switched(Ok(snapshot)))
                } else {
                    ClockStep::Done(ClockOutcome::Snapshot(snapshot))
                }
            },
        }
    }

    /// Switches to `timezone`: its offset is fetched, and on success the
    /// clock takes it, the configuration remembers the timezone, and the
    /// switch asks for the tick (at a fresh reading) that ends it.
    pub fn switch_to_timezone(&mut self, timezone: String, c: ClockReading) -> (r: ClockStep)
        ensures
            (final(self)@, clock_step_view(r)) == begin_spec(idle(old(self)@), ClockTask::Switch, timezone, c),
    {
        self.pending = None;
        self.closing_switch = false;
        self.begin(ClockTask::Switch, timezone, c)
    }

    /// Switches to the timezone selected last, if there is one.
    pub fn switch_to_last_timezone(&mut self, c: ClockReading) -> (r: ClockStep)
        ensures
            match old(self)@.config.last_selected_timezone {
                Some(tz) => (final(self)@, clock_step_view(r)) == begin_spec(
                    idle(old(self)@),
                    ClockTask::Switch,
                    tz,
                    c,
                ),
                None => final(self)@ == idle(old(self)@) && clock_step_view(r)
                    == ClockStepView::Done(OutcomeView::Switched(Err("No saved timezone"@))),
            },
    {
        self.pending = None;
        self.closing_switch = false;
        match &self.config.last_selected_timezone {
            Some(tz) => {
                let timezone = tz.clone();
                self.begin(ClockTask::Switch, timezone, c)
            },
            None => ClockStep::Done(ClockOutcome::Switched(Err("No saved timezone".to_owned()))),
        }
    }

    /// Fetches the offset of the remote timezone again; nothing to do in local mode.
    pub fn refresh_offset(&mut self, c: ClockReading) -> (r: ClockStep)
        ensures
            match old(self)@.source {
                ClockSource::Network { timezone, .. } => (final(self)@, clock_step_view(r)) == begin_spec(
                    idle(old(self)@),
                    ClockTask::Refresh,
                    timezone,
                    c,
                ),
                ClockSource::Local => final(self)@ == idle(old(self)@) && clock_step_view(r)
                    == ClockStepView::Done(OutcomeView::Refreshed(Ok(()))),
            },
    {
        self.pending = None;
        self.closing_switch = false;
        let refresh: Option<String> = match &self.source {
            ClockSource::Network { timezone, .. } => Some(timezone.clone()),
            ClockSource::Local => None,
        };
        match refresh {
            Some(timezone) => self.begin(ClockTask::Refresh, timezone, c),
            None => ClockStep::Done(ClockOutcome::Refreshed(Ok(()))),
        }
    }

    /// Hands the reply to the waiting request to the clock: `http` is the
    /// body of the reply or the transport's error, `c` a reading taken
    /// after it arrived.
    pub fn resume(&mut self, http: ClockResult<String>, c: ClockReading) -> (r: ClockStep)
        requires
            old(self)@.pending is Some,
        ensures
            (final(self)@, clock_step_view(r)) == resume_spec(old(self)@, http_view(http), c),
    {
        let p = self.pending.take().unwrap();
        match self.providers.answer(p.timezone.as_str(), p.progress, &http) {
            FetchStep::Ask { progress, request } => {
                self.pending = Some(Pending { task: p.task, timezone: p.timezone, progress });
                ClockStep::Fetch(request)
            },
            FetchStep::Done(r) => self.finish(p.task, p.timezone, r, c),
        }
    }
}

// ---------------------------------------------------------------------------
// Laws
// ---------------------------------------------------------------------------

/// The offset lies within half a day, and applied to the local time it was
/// computed from it gives back the reported time of day.
pub proof fn lemma_offset_gives_reported_time(info: TimeInfo, h: int, m: int)
    requires
        0 <= h < 24,
        0 <= m < 60,
        info.hour < 24,
        info.minute < 60,
    ensures
        -720 <= offset_spec(info, h, m) <= 720,
        remote_minutes(h, m, offset_spec(info, h, m)) == info.hour * 60 + info.minute,
{
    let r = info.hour * 60 + info.minute;
    let l = h * 60 + m;
    let off = offset_spec(info, h, m);
    assert(0 <= r < 1440);
    assert(0 <= l < 1440);
    assert(l + off == r || l + off == r + 1440 || l + off == r - 1440);
    assert((l + off) % 1440 == r) by {
        if l + off == r + 1440 {
            vstd::arithmetic::div_mod::lemma_mod_add_multiples_vanish(r, 1440);
        } else if l + off == r - 1440 {
            vstd::arithmetic::div_mod::lemma_mod_sub_multiples_vanish(r, 1440);
        }
        vstd::arithmetic::div_mod::lemma_small_mod(r as nat, 1440);
    }
}

/// Right after a sync at the reading `c`, the clock shows the hour and the
/// minute that the service reported, with the local seconds.
pub proof fn lemma_synced_snapshot_shows_reported_time(
    tz: Seq<char>,
    info: TimeInfo,
    provider: Option<Seq<char>>,
    c: ClockReading,
)
    requires
        c.hour < 24,
        c.minute < 60,
        info.hour < 24,
        info.minute < 60,
    ensures
        network_snapshot_spec(tz, offset_spec(info, c.hour as int, c.minute as int), provider, c).text
            == clock_text(timezone_label_spec(tz), info.hour as nat, info.minute as nat, c.second as nat),
{
    lemma_offset_gives_reported_time(info, c.hour as int, c.minute as int);
    let total = info.hour * 60 + info.minute;
    assert(total / 60 == info.hour && total % 60 == info.minute) by {
        vstd::arithmetic::div_mod::lemma_fundamental_div_mod_converse(
            total as int,
            60,
            info.hour as int,
            info.minute as int,
        );
    }
}

/// In local mode a tick needs no network: it shows the local time and
/// changes nothing but dropping what was under way.
pub proof fn lemma_local_tick_is_offline(v: ClockView, c: ClockReading)
    requires
        v.source == ClockSource::Local,
    ensures
        tick_spec(v, c) == (idle(v), ClockStepView::Done(tick_outcome(v.closing, local_snapshot_spec(c)))),
{
}

/// A fetch that fails leaves the clock as it was: same source, same offset,
/// same sync time, same service, same configuration.
pub proof fn lemma_failed_fetch_changes_nothing(
    v: ClockView,
    task: ClockTask,
    tz: String,
    e: Seq<char>,
    c: ClockReading,
)
    ensures
        finish_spec(v, task, tz, Err(e), c).0 == without_pending(v),
{
}

/// A switch whose fetch succeeds takes the new timezone with the offset of
/// the reported time, remembers it as the last selected one, and asks for
/// the tick that ends it.
pub proof fn lemma_switch_remembers_timezone(
    v: ClockView,
    tz: String,
    name: Seq<char>,
    info: TimeInfo,
    c: ClockReading,
)
    ensures
        ({
            let (after, step) = finish_spec(v, ClockTask::Switch, tz, Ok((name, info)), c);
            &&& after.config.last_selected_timezone == Some(tz)
            &&& after.source == ClockSource::Network {
                timezone: tz,
                offset_min: offset_spec(info, c.hour as int, c.minute as int) as i32,
            }
            &&& after.last_sync_ns == c.now_ns
            &&& after.last_provider == Some(name)
            &&& after.closing
            &&& step == ClockStepView::Tick
        }),
{
}

/// The tick that ends a switch answers for the switch: within the refresh
/// interval with the snapshot of the new offset; past it, by fetching the
/// offset again, and then with the new snapshot or the error snapshot.
pub proof fn lemma_closing_tick_answers_switch(v: ClockView, c: ClockReading, r: Result<(Seq<char>, TimeInfo), Seq<char>>)
    requires
        v.closing,
        v.source is Network,
    ensures
        !refresh_due(v, c) ==> tick_spec(v, c) == (
            idle(v),
            ClockStepView::Done(OutcomeView::Switched(Ok(current_snapshot_spec(v, c)))),
        ),
        finish_spec(idle(v), ClockTask::SwitchTick, v.source->timezone, r, c).1 matches ClockStepView::Done(
            OutcomeView::Switched(Ok(_)),
        ),
{
}

/// How far a waiting fetch is from the end of the chain (0 when none waits).
pub open spec fn pending_rank(v: ClockView) -> int {
    match v.pending {
        Some(p) => v.kinds.len() - p.provider,
        None => 0,
    }
}

/// A fetch of the clock run from the state `v` and the step `step` to its
/// end: each request to service `j` is answered `answers[j]`, and every
/// reply is handed over with the reading `c`.
pub open spec fn run_clock(
    v: ClockView,
    step: ClockStepView,
    answers: Seq<Result<Seq<char>, Seq<char>>>,
    c: ClockReading,
) -> (ClockView, ClockStepView)
    decreases pending_rank(v),
{
    match step {
        ClockStepView::Done(_) | ClockStepView::Tick => (v, step),
        ClockStepView::Fetch(_) => match v.pending {
            None => (v, step),
            Some(p) => {
                let (v2, s2) = resume_spec(v, answers[p.provider], c);
                if 0 <= pending_rank(v2) < pending_rank(v) {
                    run_clock(v2, s2, answers, c)
                } else {
                    (v2, s2)
                }
            },
        },
    }
}

/// From a waiting fetch at service `p.provider`, running the clock ends as
/// the chain's run from that service, finished on the clock.
proof fn lemma_run_clock_is_run_ask(v: ClockView, answers: Seq<Result<Seq<char>, Seq<char>>>, c: ClockReading)
    requires
        v.pending is Some,
        0 <= v.pending->Some_0.provider < v.kinds.len(),
        answers.len() == v.kinds.len(),
    ensures
        ({
            let p = v.pending->Some_0;
            run_clock(v, ClockStepView::Fetch((Seq::empty(), 0u16, Seq::empty())), answers, c) == finish_spec(
                without_pending(v),
                p.task,
                p.timezone,
                run_ask(v.kinds, p.timezone@, answers, p.provider, p.manual, p.errors),
                c,
            )
        }),
    decreases pending_rank(v),
{
    let p = v.pending->Some_0;
    let k = p.provider;
    let (v2, s2) = resume_spec(v, answers[k], c);
    match answer_spec(v.kinds, p.timezone@, k, p.manual, p.errors, answers[k]) {
        StepSpec::Ask { provider, manual, errors, request } => {
            let outcome = match answers[k] {
                Err(e) => Err(e),
                Ok(body) => crate::providers::response_spec(v.kinds[k], body),
            };
            let e = outcome->Err_0;
            lemma_scan_range(
                v.kinds,
                p.timezone@,
                k + 1,
                p.errors.push(crate::chain::provider_error(v.kinds[k], e)),
            );
            assert(k < provider < v.kinds.len());
            assert(without_pending(v2) == without_pending(v));
            lemma_run_clock_is_run_ask(v2, answers, c);
            assert(run_clock(v2, s2, answers, c) == run_clock(
                v2,
                ClockStepView::Fetch((Seq::empty(), 0u16, Seq::empty())),
                answers,
                c,
            ));
        },
        StepSpec::Done(r) => {
            assert(!(s2 is Fetch));
            assert(run_clock(v2, s2, answers, c) == (v2, s2));
        },
    }
}

/// The clock's fetches fall back as the chain does: started for any task
/// and run to the end with the answers `answers`, a fetch finishes with
/// the chain's outcome, the time of the selected service or of the first
/// service that gives one, or the failure.
pub proof fn lemma_clock_fetch_is_first_success(
    v: ClockView,
    task: ClockTask,
    tz: String,
    answers: Seq<Result<Seq<char>, Seq<char>>>,
    c: ClockReading,
)
    requires
        answers.len() == v.kinds.len(),
    ensures
        ({
            let (v1, s1) = begin_spec(idle(v), task, tz, c);
            run_clock(v1, s1, answers, c) == finish_spec(
                idle(v),
                task,
                tz,
                chain_outcome(v.kinds, v.active, tz@, answers),
                c,
            )
        }),
{
    lemma_fetch_is_first_success(v.kinds, v.active, tz@, answers);
    let w = idle(v);
    match start_spec(v.kinds, v.active, tz@) {
        StepSpec::Ask { provider, manual, errors, request } => {
            if v.active is None {
                lemma_scan_range(v.kinds, tz@, 0, Seq::empty());
            }
            let (v1, s1) = begin_spec(w, task, tz, c);
            assert(without_pending(v1) == w);
            lemma_run_clock_is_run_ask(v1, answers, c);
            assert(run_clock(v1, s1, answers, c) == run_clock(
                v1,
                ClockStepView::Fetch((Seq::empty(), 0u16, Seq::empty())),
                answers,
                c,
            ));
        },
        StepSpec::Done(r) => {
            assert(without_pending(w) == w);
        },
    }
}

/// After a fetch that gives a time, whatever started it (a switch, a
/// refresh, or a tick's refresh), the clock shows the fetched timezone,
/// remembers the service, counts the reading as its last sync, and keeps an
/// offset within half a day that turns the reading's local time into the
/// reported time of day.
pub proof fn lemma_successful_fetch_syncs(
    v: ClockView,
    task: ClockTask,
    tz: String,
    name: Seq<char>,
    info: TimeInfo,
    c: ClockReading,
)
    ensures
        ({
            let after = finish_spec(v, task, tz, Ok((name, info)), c).0;
            &&& after.last_sync_ns == c.now_ns
            &&& after.last_provider == Some(name)
            &&& after.pending is None
            &&& after.interval_ns == v.interval_ns
            &&& after.source is Network
            &&& after.source->timezone == tz
            &&& (c.hour < 24 && c.minute < 60 && info.hour < 24 && info.minute < 60) ==> {
                &&& -720 <= after.source->offset_min <= 720
                &&& (c.hour * 60 + c.minute + after.source->offset_min) % 1440 == info.hour * 60
                    + info.minute
            }
        }),
{
    if c.hour < 24 && c.minute < 60 && info.hour < 24 && info.minute < 60 {
        lemma_offset_gives_reported_time(info, c.hour as int, c.minute as int);
    }
}

/// A tick within the refresh interval after a fetch that gave a time makes
/// no request: it answers at once.
pub proof fn lemma_fresh_offset_needs_no_fetch(
    v: ClockView,
    task: ClockTask,
    tz: String,
    name: Seq<char>,
    info: TimeInfo,
    c: ClockReading,
    later: ClockReading,
)
    requires
        c.now_ns <= later.now_ns,
        later.now_ns - c.now_ns <= v.interval_ns,
    ensures
        tick_spec(finish_spec(v, task, tz, Ok((name, info)), c).0, later).1 is Done,
{
    lemma_successful_fetch_syncs(v, task, tz, name, info, c);
}

/// A fetch that fails is never answered as a success: a refresh answers
/// `Err` with the failure, a switch `Err` with it, and a tick (also the tick
/// that ends a switch) the error snapshot that carries it.
pub proof fn lemma_failed_fetch_reports_error(v: ClockView, task: ClockTask, tz: String, e: Seq<char>, c: ClockReading)
    ensures
        match finish_spec(v, task, tz, Err(e), c).1 {
            ClockStepView::Done(OutcomeView::Refreshed(r)) => task is Refresh && r == Err::<(), Seq<char>>(e),
            ClockStepView::Done(OutcomeView::Switched(Err(x))) => task is Switch && x == e,
            ClockStepView::Done(OutcomeView::Switched(Ok(s))) => task is SwitchTick && !s.ok && s.error == Some(e),
            ClockStepView::Done(OutcomeView::Snapshot(s)) => task is Tick && !s.ok && s.error == Some(e),
            _ => false,
        },
{
}

} // verus!
