//! The desktop clock window's own logic: its configuration file's contents
//! (with the window's geometry), its timezone search and additions, and a
//! clock that writes one line of text for the window, refreshing the remote
//! offset once an hour.
use vstd::prelude::*;
use crate::chain::{
    answer_spec, chain_outcome, lemma_fetch_is_first_success, lemma_scan_range, run_ask, start_spec, FetchStep,
    ProviderChain, ProviderTimeInfo, StepSpec,
};
use crate::clock::{
    clock_text, fetch_result_view, http_view, offset_minutes, offset_spec, push_clock_digits, remote_minutes,
    remote_minutes_exec, ClockReading, ClockSource,
};
use crate::config::{
    already_exists, already_exists_message, default_iana_spec, default_iana_vec,
    default_providers_vec, default_timezones_spec, default_timezones_vec, is_default_providers,
    match_timezone, match_timezone_spec, not_found, not_found_message, suggestions,
    suggestions_spec, ProviderConfig,
};
use crate::providers::{request_view, ClockResult, HttpRequest, TimeInfo};
use crate::chain::FetchProgress;
use crate::text::{
    after_last, after_last_exec, chars_of, contains_string, lowercase, push_char, push_chars,
    string_of, strs, to_lower, trim, trim_seq,
};

verus! {

/// The time after which the window's clock fetches the remote offset again:
/// one hour, in nanoseconds.
pub const NETWORK_REFRESH_INTERVAL_NS: u64 = 3_600_000_000_000;

/// The window's size, position and font.
#[derive(Clone, Debug)]
pub struct WindowConfig {
    pub width: i32,
    pub height: i32,
    pub x: Option<i32>,
    pub y: Option<i32>,
    pub font_size: Option<i32>,
    pub font_name: String,
}

impl WindowConfig {
    /// The width used when the file gives none.
    pub fn default_width() -> (r: i32)
        ensures
            r == 800,
    {
        800
    }

    /// The height used when the file gives none.
    pub fn default_height() -> (r: i32)
        ensures
            r == 200,
    {
        200
    }

    /// The font used when the file gives none.
    pub fn default_font() -> (r: String)
        ensures
            r@ == "Consolas"@,
    {
        "Consolas".to_owned()
    }
}

/// The window that `WindowConfig::default` gives: 800 by 200 at (500, 500),
/// with Consolas at size 100.
pub open spec fn is_default_window(w: WindowConfig) -> bool {
    &&& w.width == 800
    &&& w.height == 200
    &&& w.x == Some(500i32)
    &&& w.y == Some(500i32)
    &&& w.font_size == Some(100i32)
    &&& w.font_name@ == "Consolas"@
}

impl Default for WindowConfig {
    fn default() -> (r: Self)
        ensures
            is_default_window(r),
    {
        WindowConfig {
            width: Self::default_width(),
            height: Self::default_height(),
            x: Some(500),
            y: Some(500),
            font_size: Some(100),
            font_name: Self::default_font(),
        }
    }
}

/// The size of the clock's font: the configured one, or a fifth of the
/// smaller side of the window, kept within 24 to 200.
pub open spec fn font_size_spec(configured: Option<i32>, width: int, height: int) -> int {
    match configured {
        Some(s) => s as int,
        None => {
            let min_dim = if width < height {
                width
            } else {
                height
            };
            if min_dim <= 0 {
                24
            } else if min_dim / 5 < 24 {
                24
            } else if min_dim / 5 > 200 {
                200
            } else {
                min_dim / 5
            }
        },
    }
}

/// The size of the clock's font in a client area of `width` by `height`.
pub fn font_size(window: &WindowConfig, width: i32, height: i32) -> (r: i32)
    ensures
        r == font_size_spec(window.font_size, width as int, height as int),
{
    match window.font_size {
        Some(s) => s,
        None => {
            let min_dim = if width < height {
                width
            } else {
                height
            };
            if min_dim <= 0 {
                24
            } else {
                let fifth = min_dim / 5;
                if fifth < 24 {
                    24
                } else if fifth > 200 {
                    200
                } else {
                    fifth
                }
            }
        },
    }
}

/// The window's configuration file.
#[derive(Clone, Debug)]
pub struct Config {
    pub timezones: Vec<String>,
    pub providers: Vec<ProviderConfig>,
    pub window: WindowConfig,
    pub iana_timezones: Vec<String>,
    pub last_selected_timezone: Option<String>,
}

/// What `Config::add_timezone` answers: the zone added, or why none was.
/// The query is trimmed first and searched without the blank check.
pub open spec fn desktop_add_spec(c: Config, query: Seq<char>) -> Result<Seq<char>, Seq<char>> {
    let q = trim_seq(query);
    match match_timezone_spec(strs(c.iana_timezones@), lowercase(q)) {
        None => Err(
            not_found_message(
                q,
                suggestions_spec(strs(c.iana_timezones@), lowercase(q)),
                "Use IANA format (e.g., America/Detroit)"@,
            ),
        ),
        Some(m) => if strs(c.timezones@).contains(m) {
            Err(already_exists_message(m))
        } else {
            Ok(m)
        },
    }
}

impl Config {
    /// The timezones shown when none are configured.
    pub fn default_timezones() -> (v: Vec<String>)
        ensures
            strs(v@) == default_timezones_spec(),
    {
        default_timezones_vec()
    }

    /// The IANA zones known by default.
    pub fn default_iana_timezones() -> (v: Vec<String>)
        ensures
            strs(v@) == default_iana_spec(),
    {
        default_iana_vec()
    }

    /// The default services.
    pub fn default_providers() -> (v: Vec<ProviderConfig>)
        ensures
            is_default_providers(v@),
    {
        default_providers_vec()
    }

    /// The default window.
    pub fn default_window() -> (r: WindowConfig)
        ensures
            is_default_window(r),
    {
        WindowConfig::default()
    }

    /// Remembers `tz` as the timezone selected last (the caller saves).
    pub fn set_last_timezone(&mut self, tz: Option<String>)
        ensures
            *final(self) == (Config { last_selected_timezone: tz, ..*old(self) }),
    {
        self.last_selected_timezone = tz;
    }

    /// Replaces an IANA list whose length differs from the default one with
    /// the default; says whether it did (the caller then saves).
    pub fn migrate_iana_timezones(&mut self) -> (changed: bool)
        ensures
            changed == (old(self).iana_timezones@.len() != default_iana_spec().len()),
            changed ==> strs(final(self).iana_timezones@) == default_iana_spec(),
            !changed ==> final(self).iana_timezones == old(self).iana_timezones,
            final(self).timezones == old(self).timezones,
            final(self).providers == old(self).providers,
            final(self).window == old(self).window,
            final(self).last_selected_timezone == old(self).last_selected_timezone,
    {
        let default_iana = Self::default_iana_timezones();
        if self.iana_timezones.len() != default_iana.len() {
            self.iana_timezones = default_iana;
            true
        } else {
            false
        }
    }

    /// Looks `query` up in the known zones, without regard to case: whole
    /// names, then cities, then part of a city, then part of a name.
    pub fn find_timezone(&self, query: &str) -> (r: Option<String>)
        ensures
            r matches Some(z) ==> match_timezone_spec(strs(self.iana_timezones@), lowercase(query@))
                == Some(z@) && self.iana_timezones@.contains(z),
            r is None ==> match_timezone_spec(strs(self.iana_timezones@), lowercase(query@)) is None,
    {
        let lower = to_lower(query);
        let q = chars_of(lower.as_str());
        match_timezone(&self.iana_timezones, q.as_slice())
    }

    /// Adds the zone that the trimmed `tz` finds (the caller saves).
    pub fn add_timezone(&mut self, tz: String) -> (r: Result<(), String>)
        ensures
            match desktop_add_spec(*old(self), tz@) {
                Ok(m) => r is Ok && strs(final(self).timezones@) == strs(old(self).timezones@).push(m),
                Err(e) => r matches Err(x) && x@ == e && final(self).timezones == old(self).timezones,
            },
            final(self).providers == old(self).providers,
            final(self).window == old(self).window,
            final(self).iana_timezones == old(self).iana_timezones,
            final(self).last_selected_timezone == old(self).last_selected_timezone,
    {
        let chars = chars_of(tz.as_str());
        let trimmed_chars = trim(chars.as_slice());
        let trimmed = string_of(trimmed_chars.as_slice());
        match self.find_timezone(trimmed.as_str()) {
            None => {
                let lower = to_lower(trimmed.as_str());
                let q = chars_of(lower.as_str());
                let suggested = suggestions(&self.iana_timezones, q.as_slice());
                Err(not_found(trimmed.as_str(), &suggested, "Use IANA format (e.g., America/Detroit)"))
            },
            Some(matched) => {
                if contains_string(&self.timezones, &matched) {
                    return Err(already_exists(matched.as_str()));
                }
                let ghost before = strs(self.timezones@);
                self.timezones.push(matched);
                assert(strs(self.timezones@) =~= before.push(matched@));
                Ok(())
            },
        }
    }
}

impl Default for Config {
    fn default() -> (r: Self)
        ensures
            strs(r.timezones@) == default_timezones_spec(),
            is_default_providers(r.providers@),
            strs(r.iana_timezones@) == default_iana_spec(),
            is_default_window(r.window),
            r.last_selected_timezone is None,
    {
        Config {
            timezones: Self::default_timezones(),
            providers: Self::default_providers(),
            window: Self::default_window(),
            iana_timezones: Self::default_iana_timezones(),
            last_selected_timezone: None,
        }
    }
}

/// The position of the first `x` in `s`, or 0 when there is none.
pub open spec fn first_index_or_zero(s: Seq<Seq<char>>, x: Seq<char>) -> int {
    match s.index_of_first(x) {
        Some(i) => i,
        None => 0,
    }
}

/// The entry that the timezone box selects: the position of `selected`, or
/// 0 when it is absent or not given.
pub fn selection_index(timezones: &Vec<String>, selected: Option<&str>) -> (r: usize)
    ensures
        selected is None ==> r == 0,
        selected matches Some(tz) ==> r as int == first_index_or_zero(strs(timezones@), tz@),
{
    match selected {
        None => 0,
        Some(tz) => {
            let ghost zs = strs(timezones@);
            let mut i: usize = 0;
            while i < timezones.len()
                invariant
                    i <= timezones.len(),
                    selected == Some(tz),
                    zs == strs(timezones@),
                    forall|t: int| 0 <= t < i ==> zs[t] != tz@,
                decreases timezones.len() - i,
            {
                assert(zs[i as int] == timezones@[i as int]@);
                if crate::text::str_eq(timezones[i].as_str(), tz) {
                    proof {
                        zs.index_of_first_ensures(tz@);
                        assert(zs.contains(tz@));
                        let j = zs.index_of_first(tz@)->Some_0;
                        if j < i {
                            assert(zs[j] != tz@);
                        } else if j > i {
                            assert(zs[i as int] != tz@);
                        }
                        assert(j == i);
                        assert(first_index_or_zero(strs(timezones@), tz@) == i);
                    }
                    return i;
                }
                i += 1;
            }
            proof {
                zs.index_of_first_ensures(tz@);
                if zs.contains(tz@) {
                    let j = zs.index_of_first(tz@)->Some_0;
                    assert(zs[j] != tz@);
                }
            }
            0
        },
    }
}

// ---------------------------------------------------------------------------
// The window's clock
// ---------------------------------------------------------------------------

/// What a fetch of the window's clock is for.
#[derive(Clone, Copy, Debug)]
pub enum DesktopTask {
    /// A tick that began at `started` found the offset too old.
    Tick { started: ClockReading },
    /// A switch to a timezone.
    Switch,
}

/// What the caller is to do next: make a request and hand its reply to
/// `resume`, or take the outcome (a tick always succeeds).
#[derive(Debug)]
pub enum DesktopStep {
    Fetch(HttpRequest),
    Done(ClockResult<()>),
}

struct DesktopPending {
    task: DesktopTask,
    timezone: String,
    progress: FetchProgress,
}

/// The window's clock: its source and the line of text it shows.
pub struct Clock {
    source: ClockSource,
    display: String,
    last_sync_ns: u64,
    pending: Option<DesktopPending>,
}

/// A waiting fetch as values.
pub struct DesktopPendingView {
    pub task: DesktopTask,
    pub timezone: String,
    pub provider: int,
    pub manual: bool,
    pub errors: Seq<Seq<char>>,
}

/// The window's clock as values.
pub struct DesktopView {
    pub source: ClockSource,
    pub display: Seq<char>,
    pub last_sync_ns: u64,
    pub pending: Option<DesktopPendingView>,
}

/// A step as values.
pub enum DesktopStepView {
    Fetch((Seq<char>, u16, Seq<char>)),
    Done(Result<(), Seq<char>>),
}

pub open spec fn desktop_step_view(s: DesktopStep) -> DesktopStepView {
    match s {
        DesktopStep::Fetch(r) => DesktopStepView::Fetch(request_view(r)),
        DesktopStep::Done(Ok(())) => DesktopStepView::Done(Ok(())),
        DesktopStep::Done(Err(e)) => DesktopStepView::Done(Err(e@)),
    }
}

/// `Local: hh:mm:ss` or `City: hh:mm:ss`, the city being the part of the
/// timezone after its last `/`.
pub open spec fn display_text_spec(source: ClockSource, c: ClockReading) -> Seq<char> {
    match source {
        ClockSource::Local => clock_text("Local:"@, c.hour as nat, c.minute as nat, c.second as nat),
        ClockSource::Network { timezone, offset_min } => {
            let total = remote_minutes(c.hour as int, c.minute as int, offset_min as int);
            clock_text(
                after_last(timezone@, '/') + seq![':'],
                (total / 60) as nat,
                (total % 60) as nat,
                c.second as nat,
            )
        },
    }
}

pub open spec fn desktop_without_pending(v: DesktopView) -> DesktopView {
    DesktopView { pending: None, ..v }
}

/// Whether more than the refresh interval has passed since the last fetch.
pub open spec fn desktop_refresh_due(v: DesktopView, c: ClockReading) -> bool {
    (if c.now_ns >= v.last_sync_ns {
        c.now_ns - v.last_sync_ns
    } else {
        0
    }) > NETWORK_REFRESH_INTERVAL_NS
}

/// The end of a fetch: a tick shows the time from the new offset, or from
/// the old one when the fetch failed (the failure is not reported); a
/// switch takes the new timezone, or reports the failure and changes nothing.
pub open spec fn desktop_finish_spec(
    v: DesktopView,
    task: DesktopTask,
    tz: String,
    r: Result<(Seq<char>, TimeInfo), Seq<char>>,
    c: ClockReading,
) -> (DesktopView, DesktopStepView) {
    match r {
        Ok((_, info)) => {
            let source = ClockSource::Network {
                timezone: tz,
                offset_min: offset_spec(info, c.hour as int, c.minute as int) as i32,
            };
            let after = DesktopView { source, last_sync_ns: c.now_ns, pending: None, ..v };
            match task {
                DesktopTask::Tick { started } => (
                    DesktopView { display: display_text_spec(source, started), ..after },
                    DesktopStepView::Done(Ok(())),
                ),
                DesktopTask::Switch => (after, DesktopStepView::Done(Ok(()))),
            }
        },
        Err(e) => match task {
            DesktopTask::Tick { started } => (
                DesktopView { display: display_text_spec(v.source, started), pending: None, ..v },
                DesktopStepView::Done(Ok(())),
            ),
            DesktopTask::Switch => (desktop_without_pending(v), DesktopStepView::Done(Err(e))),
        },
    }
}

/// The start of a fetch of the offset for `tz` through `chain`.
pub open spec fn desktop_begin_spec(
    v: DesktopView,
    kinds: Seq<crate::providers::ProviderKind>,
    active: Option<usize>,
    task: DesktopTask,
    tz: String,
    c: ClockReading,
) -> (DesktopView, DesktopStepView) {
    match start_spec(kinds, active, tz@) {
        StepSpec::Ask { provider, manual, errors, request } => (
            DesktopView {
                pending: Some(DesktopPendingView { task, timezone: tz, provider, manual, errors }),
                ..v
            },
            DesktopStepView::Fetch(request),
        ),
        StepSpec::Done(r) => desktop_finish_spec(desktop_without_pending(v), task, tz, r, c),
    }
}

/// A tick: a remote offset older than an hour is fetched again first;
/// otherwise the line is written from the reading.
pub open spec fn desktop_tick_spec(
    v: DesktopView,
    kinds: Seq<crate::providers::ProviderKind>,
    active: Option<usize>,
    c: ClockReading,
) -> (DesktopView, DesktopStepView) {
    match v.source {
        ClockSource::Network { timezone, .. } => if desktop_refresh_due(v, c) {
            desktop_begin_spec(desktop_without_pending(v), kinds, active, DesktopTask::Tick { started: c }, timezone, c)
        } else {
            (
                DesktopView { display: display_text_spec(v.source, c), pending: None, ..v },
                DesktopStepView::Done(Ok(())),
            )
        },
        ClockSource::Local => (
            DesktopView { display: display_text_spec(v.source, c), pending: None, ..v },
            DesktopStepView::Done(Ok(())),
        ),
    }
}

/// The step after the waiting fetch got the reply `http`.
pub open spec fn desktop_resume_spec(
    v: DesktopView,
    kinds: Seq<crate::providers::ProviderKind>,
    http: Result<Seq<char>, Seq<char>>,
    c: ClockReading,
) -> (DesktopView, DesktopStepView)
    recommends
        v.pending is Some,
{
    let p = v.pending->Some_0;
    match answer_spec(kinds, p.timezone@, p.provider, p.manual, p.errors, http) {
        StepSpec::Ask { provider, manual, errors, request } => (
            DesktopView {
                pending: Some(DesktopPendingView { task: p.task, timezone: p.timezone, provider, manual, errors }),
                ..v
            },
            DesktopStepView::Fetch(request),
        ),
        StepSpec::Done(r) => desktop_finish_spec(desktop_without_pending(v), p.task, p.timezone, r, c),
    }
}

/// Writes the line for `source` at the reading `c`.
fn display_text(source: &ClockSource, c: ClockReading) -> (r: String)
    ensures
        r@ == display_text_spec(*source, c),
{
    match source {
        ClockSource::Local => {
            let mut text = "Local:".to_owned();
            push_clock_digits(&mut text, c.hour as u32, c.minute as u32, c.second as u32);
            text
        },
        ClockSource::Network { timezone, offset_min } => {
            let total = remote_minutes_exec(c.hour, c.minute, *offset_min);
            let t = chars_of(timezone.as_str());
            let city = after_last_exec(t.as_slice(), '/');
            let mut text = String::new();
            push_chars(&mut text, city.as_slice());
            push_char(&mut text, ':');
            assert(text@ =~= after_last(timezone@, '/') + seq![':']);
            push_clock_digits(&mut text, total / 60, total % 60, c.second as u32);
            text
        },
    }
}

impl View for Clock {
    type V = DesktopView;

    closed spec fn view(&self) -> DesktopView {
        DesktopView {
            source: self.source,
            display: self.display@,
            last_sync_ns: self.last_sync_ns,
            pending: match self.pending {
                Some(p) => Some(
                    DesktopPendingView {
                        task: p.task,
                        timezone: p.timezone,
                        provider: p.progress.provider as int,
                        manual: p.progress.manual,
                        errors: strs(p.progress.errors@),
                    },
                ),
                None => None,
            },
        }
    }
}

impl Clock {
    /// A clock showing `00:00:00` in local mode; `now_ns` counts as the last sync.
    pub fn new(now_ns: u64) -> (r: Clock)
        ensures
            r@.source == ClockSource::Local,
            r@.display == "00:00:00"@,
            r@.last_sync_ns == now_ns,
            r@.pending is None,
    {
        Clock { source: ClockSource::Local, display: "00:00:00".to_owned(), last_sync_ns: now_ns, pending: None }
    }

    /// The line of text shown.
    pub fn display(&self) -> (r: String)
        ensures
            r@ == self@.display,
    {
        self.display.clone()
    }

    /// Shows `text` until the next tick.
    pub fn set_display(&mut self, text: String)
        ensures
            final(self)@ == (DesktopView { display: text@, ..old(self)@ }),
    {
        self.display = text;
    }

    /// Where the time comes from.
    pub fn source(&self) -> (r: &ClockSource)
        ensures
            *r == self@.source,
    {
        &self.source
    }

    /// Whether the clock already shows the remote timezone `tz`.
    pub fn is_showing(&self, tz: &str) -> (r: bool)
        ensures
            r == (self@.source matches ClockSource::Network { timezone, .. } && timezone@ == tz@),
    {
        match &self.source {
            ClockSource::Network { timezone, .. } => crate::text::str_eq(timezone.as_str(), tz),
            ClockSource::Local => false,
        }
    }

    /// Whether a fetch waits for the reply to its request.
    pub fn is_awaiting_response(&self) -> (r: bool)
        ensures
            r == self@.pending is Some,
    {
        self.pending.is_some()
    }

    /// Switches to local time (the line changes at the next tick).
    pub fn switch_to_local(&mut self)
        ensures
            final(self)@ == (DesktopView { source: ClockSource::Local, pending: None, ..old(self)@ }),
    {
        self.pending = None;
        self.source = ClockSource::Local;
    }

    fn finish(&mut self, task: DesktopTask, timezone: String, r: ClockResult<ProviderTimeInfo>, c: ClockReading) -> (step: DesktopStep)
        ensures
            (final(self)@, desktop_step_view(step)) == desktop_finish_spec(
                old(self)@,
                task,
                timezone,
                fetch_result_view(r),
                c,
            ),
    {
        self.pending = None;
        match r {
            Ok(t) => {
                let offset = offset_minutes(t.info, c.hour, c.minute);
                self.source = ClockSource::Network { timezone, offset_min: offset };
                self.last_sync_ns = c.now_ns;
                match task {
                    DesktopTask::Tick { started } => {
                        self.display = display_text(&self.source, started);
                        DesktopStep::Done(Ok(()))
                    },
                    DesktopTask::Switch => DesktopStep::Done(Ok(())),
                }
            },
            Err(e) => match task {
                DesktopTask::Tick { started } => {
                    self.display = display_text(&self.source, started);
                    DesktopStep::Done(Ok(()))
                },
                DesktopTask::Switch => DesktopStep::Done(Err(e)),
            },
        }
    }

    fn begin(&mut self, providers: &ProviderChain, task: DesktopTask, timezone: String, c: ClockReading) -> (step: DesktopStep)
        ensures
            (final(self)@, desktop_step_view(step)) == desktop_begin_spec(
                old(self)@,
                providers.kinds(),
                providers.active(),
                task,
                timezone,
                c,
            ),
    {
        match providers.start_fetch(timezone.as_str()) {
            FetchStep::Ask { progress, request } => {
                self.pending = Some(DesktopPending { task, timezone, progress });
                DesktopStep::Fetch(request)
            },
            FetchStep::Done(r) => {
                self.pending = None;
                self.finish(task, timezone, r, c)
            },
        }
    }

    /// One tick at the reading `c`: the line is rewritten, after fetching
    /// the offset again through `providers` when it is older than an hour.
    pub fn tick(&mut self, providers: &ProviderChain, c: ClockReading) -> (r: DesktopStep)
        ensures
            (final(self)@, desktop_step_view(r)) == desktop_tick_spec(
                old(self)@,
                providers.kinds(),
                providers.active(),
                c,
            ),
    {
        self.pending = None;
        let refresh: Option<String> = match &self.source {
            ClockSource::Network { timezone, .. } => {
                let elapsed = if c.now_ns >= self.last_sync_ns {
                    c.now_ns - self.last_sync_ns
                } else {
                    0
                };
                if elapsed > NETWORK_REFRESH_INTERVAL_NS {
                    Some(timezone.clone())
                } else {
                    None
                }
            },
            ClockSource::Local => None,
        };
        match refresh {
            Some(timezone) => self.begin(providers, DesktopTask::Tick { started: c }, timezone, c),
            None => {
                self.display = display_text(&self.source, c);
                DesktopStep::Done(Ok(()))
            },
        }
    }

    /// Switches to `timezone`, fetching its offset through `providers`.
    pub fn switch_to_network(&mut self, providers: &ProviderChain, timezone: String, c: ClockReading) -> (r: DesktopStep)
        ensures
            (final(self)@, desktop_step_view(r)) == desktop_begin_spec(
                desktop_without_pending(old(self)@),
                providers.kinds(),
                providers.active(),
                DesktopTask::Switch,
                timezone,
                c,
            ),
    {
        self.pending = None;
        self.begin(providers, DesktopTask::Switch, timezone, c)
    }

    /// Hands the reply to the waiting request to the clock.
    pub fn resume(&mut self, providers: &ProviderChain, http: ClockResult<String>, c: ClockReading) -> (r: DesktopStep)
        requires
            old(self)@.pending is Some,
        ensures
            (final(self)@, desktop_step_view(r)) == desktop_resume_spec(
                old(self)@,
                providers.kinds(),
                http_view(http),
                c,
            ),
    {
        let p = self.pending.take().unwrap();
        match providers.answer(p.timezone.as_str(), p.progress, &http) {
            FetchStep::Ask { progress, request } => {
                self.pending = Some(DesktopPending { task: p.task, timezone: p.timezone, progress });
                DesktopStep::Fetch(request)
            },
            FetchStep::Done(r) => self.finish(p.task, p.timezone, r, c),
        }
    }
}

// ---------------------------------------------------------------------------
// Laws
// ---------------------------------------------------------------------------

/// How far a waiting fetch is from the end of the chain (0 when none waits).
pub open spec fn desktop_pending_rank(v: DesktopView, kinds: Seq<crate::providers::ProviderKind>) -> int {
    match v.pending {
        Some(p) => kinds.len() - p.provider,
        None => 0,
    }
}

/// A fetch of the window's clock run from `v` and `step` to its end: each
/// request to service `j` is answered `answers[j]`, every reply handed over
/// with the reading `c`.
pub open spec fn desktop_run(
    v: DesktopView,
    step: DesktopStepView,
    kinds: Seq<crate::providers::ProviderKind>,
    answers: Seq<Result<Seq<char>, Seq<char>>>,
    c: ClockReading,
) -> (DesktopView, DesktopStepView)
    decreases desktop_pending_rank(v, kinds),
{
    match step {
        DesktopStepView::Done(_) => (v, step),
        DesktopStepView::Fetch(_) => match v.pending {
            None => (v, step),
            Some(p) => {
                let (v2, s2) = desktop_resume_spec(v, kinds, answers[p.provider], c);
                if 0 <= desktop_pending_rank(v2, kinds) < desktop_pending_rank(v, kinds) {
                    desktop_run(v2, s2, kinds, answers, c)
                } else {
                    (v2, s2)
                }
            },
        },
    }
}

proof fn lemma_desktop_run_is_run_ask(
    v: DesktopView,
    kinds: Seq<crate::providers::ProviderKind>,
    answers: Seq<Result<Seq<char>, Seq<char>>>,
    c: ClockReading,
)
    requires
        v.pending is Some,
        0 <= v.pending->Some_0.provider < kinds.len(),
        answers.len() == kinds.len(),
    ensures
        ({
            let p = v.pending->Some_0;
            desktop_run(v, DesktopStepView::Fetch((Seq::empty(), 0u16, Seq::empty())), kinds, answers, c)
                == desktop_finish_spec(
                desktop_without_pending(v),
                p.task,
                p.timezone,
                run_ask(kinds, p.timezone@, answers, p.provider, p.manual, p.errors),
                c,
            )
        }),
    decreases desktop_pending_rank(v, kinds),
{
    let p = v.pending->Some_0;
    let k = p.provider;
    let (v2, s2) = desktop_resume_spec(v, kinds, answers[k], c);
    match answer_spec(kinds, p.timezone@, k, p.manual, p.errors, answers[k]) {
        StepSpec::Ask { provider, manual, errors, request } => {
            let outcome = match answers[k] {
                Err(e) => Err(e),
                Ok(body) => crate::providers::response_spec(kinds[k], body),
            };
            let e = outcome->Err_0;
            lemma_scan_range(kinds, p.timezone@, k + 1, p.errors.push(crate::chain::provider_error(kinds[k], e)));
            assert(k < provider < kinds.len());
            assert(desktop_without_pending(v2) == desktop_without_pending(v));
            lemma_desktop_run_is_run_ask(v2, kinds, answers, c);
            assert(desktop_run(v2, s2, kinds, answers, c) == desktop_run(
                v2,
                DesktopStepView::Fetch((Seq::empty(), 0u16, Seq::empty())),
                kinds,
                answers,
                c,
            ));
        },
        StepSpec::Done(r) => {
            assert(s2 is Done);
            assert(desktop_run(v2, s2, kinds, answers, c) == (v2, s2));
        },
    }
}

/// The window's clock falls back as the chain does: a fetch started for any
/// task and run to the end with the answers `answers` finishes with the
/// chain's outcome, the time of the selected service or of the first
/// service that gives one, or the failure.
pub proof fn lemma_desktop_fetch_is_first_success(
    v: DesktopView,
    kinds: Seq<crate::providers::ProviderKind>,
    active: Option<usize>,
    task: DesktopTask,
    tz: String,
    answers: Seq<Result<Seq<char>, Seq<char>>>,
    c: ClockReading,
)
    requires
        answers.len() == kinds.len(),
    ensures
        ({
            let (v1, s1) = desktop_begin_spec(desktop_without_pending(v), kinds, active, task, tz, c);
            desktop_run(v1, s1, kinds, answers, c) == desktop_finish_spec(
                desktop_without_pending(v),
                task,
                tz,
                chain_outcome(kinds, active, tz@, answers),
                c,
            )
        }),
{
    lemma_fetch_is_first_success(kinds, active, tz@, answers);
    let w = desktop_without_pending(v);
    match start_spec(kinds, active, tz@) {
        StepSpec::Ask { provider, manual, errors, request } => {
            if active is None {
                lemma_scan_range(kinds, tz@, 0, Seq::empty());
            }
            let (v1, s1) = desktop_begin_spec(w, kinds, active, task, tz, c);
            assert(desktop_without_pending(v1) == w);
            lemma_desktop_run_is_run_ask(v1, kinds, answers, c);
            assert(desktop_run(v1, s1, kinds, answers, c) == desktop_run(
                v1,
                DesktopStepView::Fetch((Seq::empty(), 0u16, Seq::empty())),
                kinds,
                answers,
                c,
            ));
        },
        StepSpec::Done(r) => {
            assert(desktop_without_pending(w) == w);
        },
    }
}

/// In the window too, adding the same query twice adds nothing the second
/// time, and the answer is that the zone already exists.
pub proof fn lemma_desktop_add_twice_reports_existing(before: Config, after: Config, query: Seq<char>, m: Seq<char>)
    requires
        desktop_add_spec(before, query) == Ok::<_, Seq<char>>(m),
        strs(after.timezones@) == strs(before.timezones@).push(m),
        after.iana_timezones == before.iana_timezones,
    ensures
        desktop_add_spec(after, query) == Err::<Seq<char>, _>(already_exists_message(m)),
{
    assert(strs(after.timezones@)[strs(before.timezones@).len() as int] == m);
}

/// A tick whose refresh fails still shows the time, from the old offset and
/// the reading the tick began with, and reports no failure: only a switch
/// reports one.
pub proof fn lemma_failed_refresh_keeps_showing(
    v: DesktopView,
    started: ClockReading,
    tz: String,
    e: Seq<char>,
    c: ClockReading,
)
    ensures
        desktop_finish_spec(v, DesktopTask::Tick { started }, tz, Err(e), c) == (
            DesktopView { display: display_text_spec(v.source, started), pending: None, ..v },
            DesktopStepView::Done(Ok(())),
        ),
        desktop_finish_spec(v, DesktopTask::Switch, tz, Err(e), c) == (
            desktop_without_pending(v),
            DesktopStepView::Done(Err(e)),
        ),
{
}

/// What a finished switch to `tz` leaves behind: on success the timezone
/// is remembered as the last selected one when `remember` holds (the caller
/// saves); on failure the clock shows `Error: <message>` until the next tick.
pub fn conclude_switch(config: &mut Config, clock: &mut Clock, tz: String, remember: bool, result: ClockResult<()>)
    ensures
        match result {
            Ok(()) => {
                &&& final(clock)@ == old(clock)@
                &&& if remember {
                    *final(config) == (Config { last_selected_timezone: Some(tz), ..*old(config) })
                } else {
                    *final(config) == *old(config)
                }
            },
            Err(e) => {
                &&& final(clock)@ == (DesktopView { display: "Error: "@ + e@, ..old(clock)@ })
                &&& *final(config) == *old(config)
            },
        },
{
    match result {
        Ok(()) => {
            if remember {
                config.set_last_timezone(Some(tz));
            }
        },
        Err(e) => {
            let mut text = "Error: ".to_owned();
            crate::text::push_str(&mut text, e.as_str());
            clock.set_display(text);
        },
    }
}

/// After a fetch of the window's clock that gives a time, for a switch as
/// for a tick's refresh, the clock shows the fetched timezone with an offset
/// within half a day that turns the reading's local time into the reported
/// time, counts the reading as its last sync, and a tick writes its line
/// from that new offset.
pub proof fn lemma_desktop_successful_fetch_syncs(
    v: DesktopView,
    task: DesktopTask,
    tz: String,
    name: Seq<char>,
    info: TimeInfo,
    c: ClockReading,
)
    ensures
        ({
            let after = desktop_finish_spec(v, task, tz, Ok((name, info)), c).0;
            &&& after.last_sync_ns == c.now_ns
            &&& after.pending is None
            &&& after.source is Network
            &&& after.source->timezone == tz
            &&& (c.hour < 24 && c.minute < 60 && info.hour < 24 && info.minute < 60) ==> {
                &&& -720 <= after.source->offset_min <= 720
                &&& (c.hour * 60 + c.minute + after.source->offset_min) % 1440 == info.hour * 60
                    + info.minute
            }
            &&& task matches DesktopTask::Tick { started } ==> after.display == display_text_spec(
                after.source,
                started,
            )
        }),
{
    if c.hour < 24 && c.minute < 60 && info.hour < 24 && info.minute < 60 {
        crate::clock::lemma_offset_gives_reported_time(info, c.hour as int, c.minute as int);
    }
}

/// What a click on the clock does: go back to local time, or switch to the
/// timezone selected last, or nothing when there is none.
#[derive(Debug)]
pub enum ClickAction {
    ToLocal,
    ToTimezone(String),
    Nothing,
}

/// The click toggles between local time and the timezone selected last.
pub fn click_action(source: &ClockSource, last_selected: &Option<String>) -> (r: ClickAction)
    ensures
        match *source {
            ClockSource::Network { .. } => r is ToLocal,
            ClockSource::Local => match *last_selected {
                Some(tz) => r matches ClickAction::ToTimezone(t) && t == tz,
                None => r is Nothing,
            },
        },
{
    match source {
        ClockSource::Network { .. } => ClickAction::ToLocal,
        ClockSource::Local => match last_selected {
            Some(tz) => ClickAction::ToTimezone(tz.clone()),
            None => ClickAction::Nothing,
        },
    }
}

} // verus!
