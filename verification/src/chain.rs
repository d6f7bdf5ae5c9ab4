//! The chain of time services: built from the configuration in order of
//! priority, asked one after another until one answers (or only the one
//! the user selected), as a state machine that hands each request out.
use vstd::prelude::*;
use crate::config::ProviderConfig;
use crate::providers::{
    provider_name_spec, provider_outcome, request_spec, request_view, response_spec, ClockResult,
    HttpRequest, ProviderKind, TimeInfo,
};
use crate::text::{join_seq, join_strings, push_str, str_eq, strs};

verus! {

/// A time and the name of the service that gave it.
#[derive(Clone, Debug)]
pub struct ProviderTimeInfo {
    pub provider_name: String,
    pub info: TimeInfo,
}

/// The service a configuration entry stands for, when it is enabled and
/// of a known type.
pub open spec fn kind_of(c: ProviderConfig) -> Option<ProviderKind> {
    if !c.enabled {
        None
    } else if c.provider_type@ == "worldtimeapi"@ {
        Some(ProviderKind::WorldTimeApi)
    } else if c.provider_type@ == "timeapi_io"@ {
        Some(ProviderKind::TimeApiIo)
    } else if c.provider_type@ == "timezonedb"@ {
        Some(ProviderKind::TimezoneDb { api_key: c.api_key })
    } else {
        None
    }
}

/// `c` put into `sorted` after every entry of no greater priority.
pub open spec fn insert_by_priority(sorted: Seq<ProviderConfig>, c: ProviderConfig) -> Seq<ProviderConfig>
    decreases sorted.len(),
{
    if sorted.len() == 0 {
        seq![c]
    } else if c.priority < sorted[0].priority {
        seq![c] + sorted
    } else {
        seq![sorted[0]] + insert_by_priority(sorted.drop_first(), c)
    }
}

/// The entries ordered by priority, entries of equal priority in their
/// order of the input (a stable sort).
pub open spec fn sort_by_priority(s: Seq<ProviderConfig>) -> Seq<ProviderConfig>
    decreases s.len(),
{
    if s.len() == 0 {
        Seq::empty()
    } else {
        insert_by_priority(sort_by_priority(s.drop_last()), s.last())
    }
}

/// The services that the configuration entries give, in the order they are asked.
pub open spec fn chain_kinds(configs: Seq<ProviderConfig>) -> Seq<ProviderKind> {
    sort_by_priority(configs).filter_map(|c: ProviderConfig| kind_of(c))
}

/// The names offered for selection: automatic fallback, then each service.
pub open spec fn provider_names_spec(kinds: Seq<ProviderKind>) -> Seq<Seq<char>> {
    seq!["Auto (fallback)"@] + names_of(kinds)
}

/// The name of each service.
pub open spec fn names_of(kinds: Seq<ProviderKind>) -> Seq<Seq<char>> {
    kinds.map_values(|k: ProviderKind| provider_name_spec(k))
}

/// A failure of one service, prefixed with its name.
pub open spec fn provider_error(k: ProviderKind, e: Seq<char>) -> Seq<char> {
    provider_name_spec(k) + ": "@ + e
}

/// The error when every service failed: each failure on a line of its own.
pub open spec fn all_failed_message(errors: Seq<Seq<char>>) -> Seq<char> {
    "All providers failed:\n"@ + join_seq(errors, "\n"@)
}

/// Where the automatic search stands after looking from a given service on.
pub enum ScanSpec {
    /// Service `provider` is to be asked with `request`; `errors` are the
    /// failures so far.
    Ask { provider: int, errors: Seq<Seq<char>>, request: (Seq<char>, u16, Seq<char>) },
    /// No service is left; `errors` are all the failures.
    Exhausted { errors: Seq<Seq<char>> },
}

/// The automatic search from service `k` on: services whose request cannot
/// be made fail at once and are passed over.
pub open spec fn scan_spec(kinds: Seq<ProviderKind>, tz: Seq<char>, k: int, errors: Seq<Seq<char>>) -> ScanSpec
    decreases kinds.len() - k,
{
    if k < 0 || k >= kinds.len() {
        ScanSpec::Exhausted { errors }
    } else {
        match request_spec(kinds[k], tz) {
            Ok(req) => ScanSpec::Ask { provider: k, errors, request: req },
            Err(e) => scan_spec(kinds, tz, k + 1, errors.push(provider_error(kinds[k], e))),
        }
    }
}

/// A step of a fetch, as values: a request to make, or the outcome.
pub enum StepSpec {
    Ask { provider: int, manual: bool, errors: Seq<Seq<char>>, request: (Seq<char>, u16, Seq<char>) },
    Done(Result<(Seq<char>, TimeInfo), Seq<char>>),
}

/// The step that follows a scan.
pub open spec fn after_scan(s: ScanSpec) -> StepSpec {
    match s {
        ScanSpec::Ask { provider, errors, request } => StepSpec::Ask {
            provider,
            manual: false,
            errors,
            request,
        },
        ScanSpec::Exhausted { errors } => StepSpec::Done(Err(all_failed_message(errors))),
    }
}

/// The first step of a fetch for `tz`: with a service selected, that
/// service alone; otherwise the automatic search from the first service.
pub open spec fn start_spec(kinds: Seq<ProviderKind>, active: Option<usize>, tz: Seq<char>) -> StepSpec {
    match active {
        Some(i) => if i < kinds.len() {
            match request_spec(kinds[i as int], tz) {
                Ok(req) => StepSpec::Ask { provider: i as int, manual: true, errors: Seq::empty(), request: req },
                Err(e) => StepSpec::Done(Err(provider_error(kinds[i as int], e))),
            }
        } else {
            StepSpec::Done(Err("Selected provider is not available"@))
        },
        None => after_scan(scan_spec(kinds, tz, 0, Seq::empty())),
    }
}

/// The step after service `k` answered `http`: its time when the reply
/// reads; otherwise, with a service selected, its error, and in automatic
/// mode the search from the next service on.
pub open spec fn answer_spec(
    kinds: Seq<ProviderKind>,
    tz: Seq<char>,
    k: int,
    manual: bool,
    errors: Seq<Seq<char>>,
    http: Result<Seq<char>, Seq<char>>,
) -> StepSpec {
    if k < 0 || k >= kinds.len() {
        StepSpec::Done(Err("Selected provider is not available"@))
    } else {
        let outcome = match http {
            Err(e) => Err(e),
            Ok(body) => response_spec(kinds[k], body),
        };
        match outcome {
            Ok(info) => StepSpec::Done(Ok((provider_name_spec(kinds[k]), info))),
            Err(e) => if manual {
                StepSpec::Done(Err(provider_error(kinds[k], e)))
            } else {
                after_scan(scan_spec(kinds, tz, k + 1, errors.push(provider_error(kinds[k], e))))
            },
        }
    }
}

/// Where a fetch stands while a service is being asked.
#[derive(Debug)]
pub struct FetchProgress {
    /// The service being asked, an index into the chain.
    pub provider: usize,
    /// Whether this service was selected by the user (no fallback).
    pub manual: bool,
    /// The failures so far.
    pub errors: Vec<String>,
}

/// A step of a fetch: ask a service, or done.
#[derive(Debug)]
pub enum FetchStep {
    Ask { progress: FetchProgress, request: HttpRequest },
    Done(ClockResult<ProviderTimeInfo>),
}

/// A fetch step as values.
pub open spec fn fetch_step_view(s: FetchStep) -> StepSpec {
    match s {
        FetchStep::Ask { progress, request } => StepSpec::Ask {
            provider: progress.provider as int,
            manual: progress.manual,
            errors: strs(progress.errors@),
            request: request_view(request),
        },
        FetchStep::Done(Ok(t)) => StepSpec::Done(Ok((t.provider_name@, t.info))),
        FetchStep::Done(Err(e)) => StepSpec::Done(Err(e@)),
    }
}

/// The selection that position `index` in the list of names stands for, in
/// a chain of `len` services: 0, or a position past the services, is
/// automatic mode; `n` is the `n`-th service.
pub open spec fn selection_for(len: nat, index: usize) -> Option<usize> {
    if index == 0 || index - 1 >= len {
        None
    } else {
        Some((index - 1) as usize)
    }
}

/// The position in the list of names of a selection: 0 for automatic mode.
pub open spec fn position_of(active: Option<usize>) -> int {
    match active {
        Some(i) => i + 1,
        None => 0,
    }
}

/// The ordered services and the user's selection.
pub struct ProviderChain {
    providers: Vec<ProviderKind>,
    active_index: Option<usize>,
}

impl ProviderChain {
    /// The services, in the order they are asked.
    pub closed spec fn kinds(&self) -> Seq<ProviderKind> {
        self.providers@
    }

    /// The service the user selected, if any.
    pub closed spec fn active(&self) -> Option<usize> {
        self.active_index
    }

    #[verifier::type_invariant]
    spec fn selection_in_range(&self) -> bool {
        self.active_index matches Some(i) ==> i < self.providers@.len()
    }

    /// The chain of the enabled, known services of `config`, by priority,
    /// in automatic mode.
    pub fn from_config(configs: &Vec<ProviderConfig>) -> (r: Self)
        ensures
            r.kinds() == chain_kinds(configs@),
            r.active() is None,
    {
        let order = priority_order(configs);
        let ghost sorted = sort_by_priority(configs@);
        let mut providers: Vec<ProviderKind> = Vec::new();
        let mut i: usize = 0;
        while i < order.len()
            invariant
                i <= order.len(),
                sorted == sort_by_priority(configs@),
                order@.len() == sorted.len(),
                forall|t: int| #![trigger order@[t]] 0 <= t < order@.len() ==> order@[t] < configs@.len() && configs@[order@[t] as int] == sorted[t],
                providers@ == sorted.take(i as int).filter_map(|c: ProviderConfig| kind_of(c)),
            decreases order.len() - i,
        {
            let c = &configs[order[i]];
            let kind = config_kind(c);
            proof {
                assert(sorted.take(i + 1).drop_last() =~= sorted.take(i as int));
                assert(sorted.take(i + 1).last() == *c);
                reveal_with_fuel(Seq::filter_map, 1);
            }
            match kind {
                Some(k) => {
                    providers.push(k);
                },
                None => {},
            }
            i += 1;
        }
        assert(sorted.take(order.len() as int) =~= sorted);
        ProviderChain { providers, active_index: None }
    }

    /// "Auto (fallback)" followed by the name of each service.
    pub fn provider_names(&self) -> (r: Vec<String>)
        ensures
            strs(r@) == provider_names_spec(self.kinds()),
    {
        let mut names: Vec<String> = Vec::new();
        names.push("Auto (fallback)".to_owned());
        let mut i: usize = 0;
        while i < self.providers.len()
            invariant
                i <= self.providers.len(),
                strs(names@) == seq!["Auto (fallback)"@] + names_of(self.providers@.take(i as int)),
            decreases self.providers.len() - i,
        {
            let ghost before = strs(names@);
            let name = self.providers[i].name();
            names.push(name);
            assert(strs(names@) =~= before.push(provider_name_spec(self.providers@[i as int])));
            assert(names_of(self.providers@.take(i + 1)) =~= names_of(self.providers@.take(i as int)).push(
                provider_name_spec(self.providers@[i as int]),
            ));
            assert(strs(names@) =~= seq!["Auto (fallback)"@] + names_of(self.providers@.take(i + 1)));
            i += 1;
        }
        assert(self.providers@.take(self.providers.len() as int) =~= self.providers@);
        names
    }

    /// Selects by position in the list of names: 0 is automatic mode, `n`
    /// the `n`-th service; a position past the services also means automatic.
    pub fn set_active_provider(&mut self, index: usize)
        ensures
            final(self).kinds() == old(self).kinds(),
            final(self).active() == selection_for(old(self).kinds().len(), index),
    {
        let selection = if index == 0 || index - 1 >= self.providers.len() {
            None
        } else {
            Some(index - 1)
        };
        self.active_index = selection;
    }

    /// Selects by position in the list of names as the window does: 0 is
    /// automatic mode, `n` the `n`-th service; a position past the services
    /// leaves the selection as it was.
    pub fn select_provider(&mut self, index: usize)
        ensures
            final(self).kinds() == old(self).kinds(),
            final(self).active() == (if index == 0 {
                None
            } else if index - 1 < old(self).kinds().len() {
                Some((index - 1) as usize)
            } else {
                old(self).active()
            }),
    {
        if index == 0 {
            self.active_index = None;
        } else if index - 1 < self.providers.len() {
            self.active_index = Some(index - 1);
        }
    }

    /// The selected position in the list of names: 0 for automatic mode.
    pub fn active_index(&self) -> (r: usize)
        ensures
            r == position_of(self.active()),
            r <= self.kinds().len(),
    {
        proof {
            use_type_invariant(self);
        }
        let n = self.providers.len();
        match self.active_index {
            Some(index) => {
                assert(index < n);
                index + 1
            },
            None => 0,
        }
    }

    /// The automatic search from service `k` on, with the failures so far.
    fn scan(&self, timezone: &str, k: usize, errors: Vec<String>) -> (r: FetchStep)
        ensures
            fetch_step_view(r) == after_scan(scan_spec(self.kinds(), timezone@, k as int, strs(errors@))),
        decreases self.providers@.len() - k,
    {
        if k >= self.providers.len() {
            let mut message = "All providers failed:\n".to_owned();
            let joined = join_strings(&errors, "\n");
            push_str(&mut message, joined.as_str());
            return FetchStep::Done(Err(message));
        }
        match self.providers[k].request(timezone) {
            Ok(request) => FetchStep::Ask {
                progress: FetchProgress { provider: k, manual: false, errors },
                request,
            },
            Err(e) => {
                let mut errors = errors;
                let ghost before = strs(errors@);
                errors.push(prefixed_error(&self.providers[k], e.as_str()));
                assert(strs(errors@) =~= before.push(provider_error(self.providers@[k as int], e@)));
                self.scan(timezone, k + 1, errors)
            },
        }
    }

    /// The first step of fetching the time in `timezone`.
    pub fn start_fetch(&self, timezone: &str) -> (r: FetchStep)
        ensures
            fetch_step_view(r) == start_spec(self.kinds(), self.active(), timezone@),
    {
        match self.active_index {
            Some(i) => {
                if i < self.providers.len() {
                    match self.providers[i].request(timezone) {
                        Ok(request) => {
                            let errors: Vec<String> = Vec::new();
                            assert(strs(errors@) =~= Seq::<Seq<char>>::empty());
                            FetchStep::Ask { progress: FetchProgress { provider: i, manual: true, errors }, request }
                        },
                        Err(e) => FetchStep::Done(Err(prefixed_error(&self.providers[i], e.as_str()))),
                    }
                } else {
                    FetchStep::Done(Err("Selected provider is not available".to_owned()))
                }
            },
            None => {
                let errors: Vec<String> = Vec::new();
                assert(strs(errors@) =~= Seq::<Seq<char>>::empty());
                self.scan(timezone, 0, errors)
            },
        }
    }

    /// The step after the service in `progress` answered: `http` is the body
    /// of its reply or the transport's error.
    pub fn answer(&self, timezone: &str, progress: FetchProgress, http: &ClockResult<String>) -> (r: FetchStep)
        ensures
            fetch_step_view(r) == answer_spec(
                self.kinds(),
                timezone@,
                progress.provider as int,
                progress.manual,
                strs(progress.errors@),
                match http {
                    Ok(b) => Ok(b@),
                    Err(e) => Err(e@),
                },
            ),
    {
        let k = progress.provider;
        if k >= self.providers.len() {
            return FetchStep::Done(Err("Selected provider is not available".to_owned()));
        }
        let outcome = match http {
            Err(e) => Err(e.clone()),
            Ok(body) => self.providers[k].parse_response(body.as_str()),
        };
        match outcome {
            Ok(info) => FetchStep::Done(Ok(ProviderTimeInfo { provider_name: self.providers[k].name(), info })),
            Err(e) => {
                let failure = prefixed_error(&self.providers[k], e.as_str());
                if progress.manual {
                    FetchStep::Done(Err(failure))
                } else {
                    let mut errors = progress.errors;
                    let ghost before = strs(errors@);
                    errors.push(failure);
                    assert(strs(errors@) =~= before.push(provider_error(self.providers@[k as int], e@)));
                    self.scan(timezone, k + 1, errors)
                }
            },
        }
    }
}

/// "<service>: <error>".
fn prefixed_error(k: &ProviderKind, e: &str) -> (r: String)
    ensures
        r@ == provider_error(*k, e@),
{
    let mut m = k.name();
    push_str(&mut m, ": ");
    push_str(&mut m, e);
    m
}

/// The service a configuration entry stands for.
fn config_kind(c: &ProviderConfig) -> (r: Option<ProviderKind>)
    ensures
        r == kind_of(*c),
{
    if !c.enabled {
        None
    } else if str_eq(c.provider_type.as_str(), "worldtimeapi") {
        Some(ProviderKind::WorldTimeApi)
    } else if str_eq(c.provider_type.as_str(), "timeapi_io") {
        Some(ProviderKind::TimeApiIo)
    } else if str_eq(c.provider_type.as_str(), "timezonedb") {
        Some(ProviderKind::TimezoneDb { api_key: c.api_key.clone() })
    } else {
        None
    }
}

/// Inserting into a sorted prefix at the first position of greater priority.
proof fn lemma_insert_at(sorted: Seq<ProviderConfig>, c: ProviderConfig, pos: int)
    requires
        0 <= pos <= sorted.len(),
        forall|t: int| 0 <= t < pos ==> (#[trigger] sorted[t]).priority <= c.priority,
        pos < sorted.len() ==> sorted[pos].priority > c.priority,
    ensures
        insert_by_priority(sorted, c) == sorted.take(pos) + seq![c] + sorted.skip(pos),
    decreases pos,
{
    if sorted.len() == 0 {
        assert(sorted.take(pos) + seq![c] + sorted.skip(pos) =~= seq![c]);
    } else if pos == 0 {
        assert(sorted.take(pos) + seq![c] + sorted.skip(pos) =~= seq![c] + sorted);
    } else {
        lemma_insert_at(sorted.drop_first(), c, pos - 1);
        assert(seq![sorted[0]] + (sorted.drop_first().take(pos - 1) + seq![c] + sorted.drop_first().skip(pos - 1))
            =~= sorted.take(pos) + seq![c] + sorted.skip(pos));
    }
}

/// Positions into `configs`, in the order of `sort_by_priority`.
fn priority_order(configs: &Vec<ProviderConfig>) -> (order: Vec<usize>)
    ensures
        order@.len() == sort_by_priority(configs@).len(),
        forall|t: int| #![trigger order@[t]] 0 <= t < order@.len() ==> order@[t] < configs@.len() && configs@[order@[t] as int] == sort_by_priority(configs@)[t],
{
    let mut order: Vec<usize> = Vec::new();
    let mut i: usize = 0;
    while i < configs.len()
        invariant
            i <= configs.len(),
            order@.len() == sort_by_priority(configs@.take(i as int)).len(),
            forall|t: int| #![trigger order@[t]] 0 <= t < order@.len() ==> order@[t] < configs@.len() && configs@[order@[t] as int] == sort_by_priority(configs@.take(i as int))[t],
        decreases configs.len() - i,
    {
        let ghost prev = sort_by_priority(configs@.take(i as int));
        let p = configs[i].priority;
        let mut pos: usize = 0;
        while pos < order.len() && configs[order[pos]].priority <= p
            invariant
                pos <= order.len(),
                order@.len() == prev.len(),
                forall|t: int| #![trigger order@[t]] 0 <= t < order@.len() ==> order@[t] < configs@.len() && configs@[order@[t] as int] == prev[t],
                forall|t: int| 0 <= t < pos ==> (#[trigger] prev[t]).priority <= p,
            decreases order.len() - pos,
        {
            pos += 1;
        }
        proof {
            lemma_insert_at(prev, configs@[i as int], pos as int);
            assert(configs@.take(i + 1).drop_last() =~= configs@.take(i as int));
            assert(configs@.take(i + 1).last() == configs@[i as int]);
        }
        let ghost old_order = order@;
        order.insert(pos, i);
        proof {
            let next = sort_by_priority(configs@.take(i + 1));
            assert(next == prev.take(pos as int) + seq![configs@[i as int]] + prev.skip(pos as int));
            assert forall|t: int| #![trigger order@[t]] 0 <= t < order@.len() implies order@[t] < configs@.len() && configs@[order@[t] as int] == next[t] by {
                if t < pos {
                    assert(order@[t] == old_order[t]);
                } else if t == pos {
                } else {
                    assert(order@[t] == old_order[t - 1]);
                }
            }
        }
        i += 1;
    }
    assert(configs@.take(configs.len() as int) =~= configs@);
    order
}

// ---------------------------------------------------------------------------
// What a whole fetch gives
// ---------------------------------------------------------------------------

/// The automatic search as one result: the first service from `k` on whose
/// outcome (given the transport's answers) is a time, named; otherwise all
/// the failures, in the order of the chain.
pub open spec fn first_success_from(
    kinds: Seq<ProviderKind>,
    tz: Seq<char>,
    answers: Seq<Result<Seq<char>, Seq<char>>>,
    k: int,
    errors: Seq<Seq<char>>,
) -> Result<(Seq<char>, TimeInfo), Seq<char>>
    decreases kinds.len() - k,
{
    if k < 0 || k >= kinds.len() {
        Err(all_failed_message(errors))
    } else {
        match provider_outcome(kinds[k], tz, answers[k]) {
            Ok(info) => Ok((provider_name_spec(kinds[k]), info)),
            Err(e) => first_success_from(kinds, tz, answers, k + 1, errors.push(provider_error(kinds[k], e))),
        }
    }
}

/// What fetching the time in `tz` gives when service `k` would be answered
/// `answers[k]`: the selected service's outcome, or else the first success
/// of the automatic search.
pub open spec fn chain_outcome(
    kinds: Seq<ProviderKind>,
    active: Option<usize>,
    tz: Seq<char>,
    answers: Seq<Result<Seq<char>, Seq<char>>>,
) -> Result<(Seq<char>, TimeInfo), Seq<char>> {
    match active {
        Some(i) => if i < kinds.len() {
            match provider_outcome(kinds[i as int], tz, answers[i as int]) {
                Ok(info) => Ok((provider_name_spec(kinds[i as int]), info)),
                Err(e) => Err(provider_error(kinds[i as int], e)),
            }
        } else {
            Err("Selected provider is not available"@)
        },
        None => first_success_from(kinds, tz, answers, 0, Seq::empty()),
    }
}

/// Running the fetch from an `Ask` at service `k`, answering each request of
/// service `j` with `answers[j]`.
pub open spec fn run_ask(
    kinds: Seq<ProviderKind>,
    tz: Seq<char>,
    answers: Seq<Result<Seq<char>, Seq<char>>>,
    k: int,
    manual: bool,
    errors: Seq<Seq<char>>,
) -> Result<(Seq<char>, TimeInfo), Seq<char>>
    decreases kinds.len() - k,
{
    match answer_spec(kinds, tz, k, manual, errors, answers[k]) {
        StepSpec::Done(r) => r,
        StepSpec::Ask { provider, manual: m, errors: e, .. } => if k < provider < kinds.len() {
            run_ask(kinds, tz, answers, provider, m, e)
        } else {
            Err(Seq::empty())
        },
    }
}

/// Running the fetch from a step until it is done.
pub open spec fn run_step(
    kinds: Seq<ProviderKind>,
    tz: Seq<char>,
    answers: Seq<Result<Seq<char>, Seq<char>>>,
    s: StepSpec,
) -> Result<(Seq<char>, TimeInfo), Seq<char>> {
    match s {
        StepSpec::Done(r) => r,
        StepSpec::Ask { provider, manual, errors, .. } => run_ask(kinds, tz, answers, provider, manual, errors),
    }
}

/// A search from `k` on asks no service before `k`, and none past the chain.
pub proof fn lemma_scan_range(kinds: Seq<ProviderKind>, tz: Seq<char>, k: int, errors: Seq<Seq<char>>)
    requires
        0 <= k,
    ensures
        scan_spec(kinds, tz, k, errors) matches ScanSpec::Ask { provider, .. } ==> k <= provider < kinds.len(),
    decreases kinds.len() - k,
{
    if k < kinds.len() && request_spec(kinds[k], tz) is Err {
        let e = request_spec(kinds[k], tz)->Err_0;
        lemma_scan_range(kinds, tz, k + 1, errors.push(provider_error(kinds[k], e)));
    }
}

proof fn lemma_scan_runs_to_first_success(
    kinds: Seq<ProviderKind>,
    tz: Seq<char>,
    answers: Seq<Result<Seq<char>, Seq<char>>>,
    k: int,
    errors: Seq<Seq<char>>,
)
    requires
        0 <= k,
        answers.len() == kinds.len(),
    ensures
        run_step(kinds, tz, answers, after_scan(scan_spec(kinds, tz, k, errors)))
            == first_success_from(kinds, tz, answers, k, errors),
    decreases kinds.len() - k,
{
    if k < kinds.len() {
        match request_spec(kinds[k], tz) {
            Err(e) => {
                lemma_scan_runs_to_first_success(kinds, tz, answers, k + 1, errors.push(provider_error(kinds[k], e)));
            },
            Ok(_) => {
                let outcome = match answers[k] {
                    Err(e) => Err(e),
                    Ok(body) => response_spec(kinds[k], body),
                };
                assert(outcome == provider_outcome(kinds[k], tz, answers[k]));
                if outcome is Err {
                    let e = outcome->Err_0;
                    let next = errors.push(provider_error(kinds[k], e));
                    lemma_scan_range(kinds, tz, k + 1, next);
                    lemma_scan_runs_to_first_success(kinds, tz, answers, k + 1, next);
                }
            },
        }
    }
}

/// The fetch does what the chain promises: with a service selected, that
/// service's outcome (its failure prefixed with its name); in automatic
/// mode, the time from the first service in priority order that gives
/// one, and when none does, every failure in order, each on its own line.
pub proof fn lemma_fetch_is_first_success(
    kinds: Seq<ProviderKind>,
    active: Option<usize>,
    tz: Seq<char>,
    answers: Seq<Result<Seq<char>, Seq<char>>>,
)
    requires
        answers.len() == kinds.len(),
    ensures
        run_step(kinds, tz, answers, start_spec(kinds, active, tz)) == chain_outcome(kinds, active, tz, answers),
{
    match active {
        Some(i) => {},
        None => {
            lemma_scan_runs_to_first_success(kinds, tz, answers, 0, Seq::empty());
        },
    }
}

// ---------------------------------------------------------------------------
// The order of the chain
// ---------------------------------------------------------------------------

/// Entries in nondecreasing priority.
pub open spec fn sorted_by_priority(s: Seq<ProviderConfig>) -> bool {
    forall|i: int, j: int| 0 <= i <= j < s.len() ==> (#[trigger] s[i]).priority <= (#[trigger] s[j]).priority
}

/// Putting an entry in by priority is inserting it at some position.
proof fn lemma_insert_position(sorted: Seq<ProviderConfig>, c: ProviderConfig) -> (pos: int)
    ensures
        0 <= pos <= sorted.len(),
        insert_by_priority(sorted, c) == sorted.insert(pos, c),
        forall|t: int| 0 <= t < pos ==> (#[trigger] sorted[t]).priority <= c.priority,
        pos < sorted.len() ==> c.priority < sorted[pos].priority,
    decreases sorted.len(),
{
    if sorted.len() == 0 {
        assert(seq![c] =~= sorted.insert(0, c));
        0
    } else if c.priority < sorted[0].priority {
        assert(seq![c] + sorted =~= sorted.insert(0, c));
        0
    } else {
        let p = lemma_insert_position(sorted.drop_first(), c);
        assert(seq![sorted[0]] + sorted.drop_first().insert(p, c) =~= sorted.insert(p + 1, c));
        assert forall|t: int| 0 <= t < p + 1 implies (#[trigger] sorted[t]).priority <= c.priority by {
            if t > 0 {
                assert(sorted[t] == sorted.drop_first()[t - 1]);
            }
        }
        if p + 1 < sorted.len() {
            assert(sorted[p + 1] == sorted.drop_first()[p]);
        }
        p + 1
    }
}

proof fn lemma_insert_keeps_order(sorted: Seq<ProviderConfig>, c: ProviderConfig)
    requires
        sorted_by_priority(sorted),
    ensures
        sorted_by_priority(insert_by_priority(sorted, c)),
        insert_by_priority(sorted, c).to_multiset() == sorted.to_multiset().insert(c),
{
    broadcast use vstd::seq_lib::group_to_multiset_ensures;

    let pos = lemma_insert_position(sorted, c);
    let r = sorted.insert(pos, c);
    assert forall|i: int, j: int| 0 <= i <= j < r.len() implies (#[trigger] r[i]).priority <= (#[trigger] r[j]).priority by {
        if i < pos && j < pos {
        } else if i < pos && j == pos {
        } else if i < pos {
            assert(r[j] == sorted[j - 1]);
        } else if i == pos && j == pos {
        } else if i == pos {
            assert(r[j] == sorted[j - 1]);
            assert(sorted[pos] == sorted[pos]);
            assert(sorted[pos].priority <= sorted[j - 1].priority);
        } else {
            assert(r[i] == sorted[i - 1]);
            assert(r[j] == sorted[j - 1]);
        }
    }
}

/// The chain's order: `sort_by_priority` puts the entries in nondecreasing
/// priority and keeps every entry, each as often as it occurs.
pub proof fn lemma_sort_by_priority(s: Seq<ProviderConfig>)
    ensures
        sorted_by_priority(sort_by_priority(s)),
        sort_by_priority(s).to_multiset() == s.to_multiset(),
    decreases s.len(),
{
    broadcast use vstd::seq_lib::group_to_multiset_ensures;

    if s.len() > 0 {
        lemma_sort_by_priority(s.drop_last());
        lemma_insert_keeps_order(sort_by_priority(s.drop_last()), s.last());
        assert(s.drop_last().push(s.last()) =~= s);
    } else {
        assert(sort_by_priority(s) =~= s);
    }
}

/// The entries of priority `p`, in order.
pub open spec fn with_priority(s: Seq<ProviderConfig>, p: u32) -> Seq<ProviderConfig> {
    s.filter(|c: ProviderConfig| c.priority == p)
}

/// The chain's order is stable: entries of one priority stay in the order
/// in which the configuration lists them.
pub proof fn lemma_sort_by_priority_is_stable(s: Seq<ProviderConfig>, p: u32)
    ensures
        with_priority(sort_by_priority(s), p) == with_priority(s, p),
    decreases s.len(),
{
    let pred = |c: ProviderConfig| c.priority == p;
    if s.len() > 0 {
        let c = s.last();
        let rest = sort_by_priority(s.drop_last());
        lemma_sort_by_priority_is_stable(s.drop_last(), p);
        lemma_sort_by_priority(s.drop_last());
        let pos = lemma_insert_position(rest, c);
        let front = rest.take(pos);
        let back = rest.skip(pos);
        assert(rest.insert(pos, c) =~= front + seq![c] + back);
        assert(rest =~= front + back);
        Seq::filter_distributes_over_add(front + seq![c], back, pred);
        Seq::filter_distributes_over_add(front, seq![c], pred);
        Seq::filter_distributes_over_add(front, back, pred);
        assert(seq![c] =~= Seq::<ProviderConfig>::empty().push(c));
        Seq::<ProviderConfig>::empty().lemma_filter_push(c, pred);
        assert(Seq::<ProviderConfig>::empty().filter(pred) =~= Seq::<ProviderConfig>::empty()) by {
            reveal(Seq::filter);
        }
        assert(s =~= s.drop_last().push(c));
        s.drop_last().lemma_filter_push(c, pred);
        if c.priority == p {
            assert(back.all(|x: ProviderConfig| !pred(x))) by {
                assert forall|i: int| 0 <= i < back.len() implies !pred(#[trigger] back[i]) by {
                    assert(back[i] == rest[pos + i]);
                    assert(rest[pos].priority <= rest[pos + i].priority);
                }
            }
            back.lemma_all_neg_filter_empty(pred);
            assert(back.filter(pred) =~= Seq::<ProviderConfig>::empty());
        }
    } else {
        assert(sort_by_priority(s) =~= s);
    }
}

/// Selecting by position and reading the position back: a position naming a
/// service is kept; 0, or any position past the services, reads back as 0
/// (automatic mode).
pub proof fn lemma_selection_reads_back(chain: ProviderChain, index: usize)
    ensures
        position_of(selection_for(chain.kinds().len(), index)) == if 1 <= index <= chain.kinds().len() {
            index as int
        } else {
            0
        },
{
}

} // verus!
