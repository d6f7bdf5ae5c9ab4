//! The clock's configuration: the timezones shown, the time services and
//! their order, the list of known IANA zones, and the search in that list.
use vstd::prelude::*;
use crate::providers::ClockResult;
use crate::text::{
    after_last, after_last_exec, chars_eq, chars_of, contains, contains_seq, contains_string,
    join_seq, join_strings, lowercase, push_str, string_of, strs, to_lower, trim, trim_seq,
};

verus! {

/// A time service as the configuration names it.
#[derive(Clone, Debug)]
pub struct ProviderConfig {
    /// `worldtimeapi`, `timeapi_io` or `timezonedb`; other names are ignored.
    pub provider_type: String,
    /// Services are tried in increasing priority.
    pub priority: u32,
    pub enabled: bool,
    pub api_key: String,
}

/// The configuration of the clock.
#[derive(Clone, Debug)]
pub struct ClockCoreConfig {
    /// The timezones the user has added.
    pub timezones: Vec<String>,
    pub providers: Vec<ProviderConfig>,
    /// The IANA zones that a search looks in.
    pub iana_timezones: Vec<String>,
    pub last_selected_timezone: Option<String>,
}

/// The timezones shown when none are configured.
pub open spec fn default_timezones_spec() -> Seq<Seq<char>> {
    seq![
        "Europe/Moscow"@,
        "Europe/London"@,
        "America/New_York"@,
        "Asia/Tokyo"@,
        "Asia/Bangkok"@,
        "Asia/Hong_Kong"@
    ]
}

/// The IANA zones known by default.
pub open spec fn default_iana_spec() -> Seq<Seq<char>> {
    seq![
        "Africa/Cairo"@,
        "Africa/Johannesburg"@,
        "Africa/Lagos"@,
        "Africa/Nairobi"@,
        "America/Anchorage"@,
        "America/Argentina/Buenos_Aires"@,
        "America/Chicago"@,
        "America/Denver"@,
        "America/Detroit"@,
        "America/Los_Angeles"@,
        "America/Mexico_City"@,
        "America/New_York"@,
        "America/Phoenix"@,
        "America/Sao_Paulo"@,
        "America/Toronto"@,
        "America/Vancouver"@,
        "Asia/Bangkok"@,
        "Asia/Colombo"@,
        "Asia/Dubai"@,
        "Asia/Hong_Kong"@,
        "Asia/Jakarta"@,
        "Asia/Jerusalem"@,
        "Asia/Karachi"@,
        "Asia/Kolkata"@,
        "Asia/Manila"@,
        "Asia/Riyadh"@,
        "Asia/Seoul"@,
        "Asia/Shanghai"@,
        "Asia/Singapore"@,
        "Asia/Taipei"@,
        "Asia/Tokyo"@,
        "Atlantic/Reykjavik"@,
        "Australia/Adelaide"@,
        "Australia/Brisbane"@,
        "Australia/Melbourne"@,
        "Australia/Perth"@,
        "Australia/Sydney"@,
        "Europe/Amsterdam"@,
        "Europe/Athens"@,
        "Europe/Berlin"@,
        "Europe/Brussels"@,
        "Europe/Budapest"@,
        "Europe/Copenhagen"@,
        "Europe/Dublin"@,
        "Europe/Helsinki"@,
        "Europe/Istanbul"@,
        "Europe/Lisbon"@,
        "Europe/London"@,
        "Europe/Madrid"@,
        "Europe/Moscow"@,
        "Europe/Oslo"@,
        "Europe/Paris"@,
        "Europe/Prague"@,
        "Europe/Rome"@,
        "Europe/Stockholm"@,
        "Europe/Vienna"@,
        "Europe/Warsaw"@,
        "Europe/Zurich"@,
        "Pacific/Auckland"@,
        "Pacific/Fiji"@,
        "Pacific/Honolulu"@,
        "UTC"@
    ]
}

/// A provider entry with the given fields and no API key.
pub open spec fn provider_entry(p: ProviderConfig, kind: Seq<char>, priority: u32, enabled: bool) -> bool {
    &&& p.provider_type@ == kind
    &&& p.priority == priority
    &&& p.enabled == enabled
    &&& p.api_key@ == Seq::<char>::empty()
}

/// The default services: WorldTimeAPI, then TimeAPI.io, and TimezoneDB disabled.
pub open spec fn is_default_providers(p: Seq<ProviderConfig>) -> bool {
    &&& p.len() == 3
    &&& provider_entry(p[0], "worldtimeapi"@, 1, true)
    &&& provider_entry(p[1], "timeapi_io"@, 2, true)
    &&& provider_entry(p[2], "timezonedb"@, 3, false)
}

/// The configuration that `default()` builds.
pub open spec fn is_default_config(c: ClockCoreConfig) -> bool {
    &&& strs(c.timezones@) == default_timezones_spec()
    &&& is_default_providers(c.providers@)
    &&& strs(c.iana_timezones@) == default_iana_spec()
    &&& c.last_selected_timezone is None
}

/// `after` is `before` with what is missing filled in: the default timezones
/// when there are none, the default services when there are none, and the
/// default IANA list when the configured one has another length.
pub open spec fn normalized(before: ClockCoreConfig, after: ClockCoreConfig) -> bool {
    &&& if before.timezones@.len() == 0 {
        strs(after.timezones@) == default_timezones_spec()
    } else {
        after.timezones == before.timezones
    }
    &&& if before.providers@.len() == 0 {
        is_default_providers(after.providers@)
    } else {
        after.providers == before.providers
    }
    &&& if before.iana_timezones@.len() != default_iana_spec().len() {
        strs(after.iana_timezones@) == default_iana_spec()
    } else {
        after.iana_timezones == before.iana_timezones
    }
    &&& after.last_selected_timezone == before.last_selected_timezone
}

/// The lower-case form of each zone name.
pub open spec fn lowered_names(zones: Seq<Seq<char>>) -> Seq<Seq<char>> {
    zones.map_values(|z: Seq<char>| lowercase(z))
}

/// The lower-case form of each zone's city (the part after the last `/`).
pub open spec fn lowered_cities(zones: Seq<Seq<char>>) -> Seq<Seq<char>> {
    zones.map_values(|z: Seq<char>| lowercase(after_last(z, '/')))
}

/// Whether a zone, by its lower-cased name and city, matches the lower-cased
/// query `q` in search pass `pass`: 0, the name equals it; 1, the city
/// equals it; 2, the city contains it; 3, the name contains it.
pub open spec fn hit(pass: int, name: Seq<char>, city: Seq<char>, q: Seq<char>) -> bool {
    if pass == 0 {
        name == q
    } else if pass == 1 {
        city == q
    } else if pass == 2 {
        contains_seq(city, q)
    } else {
        contains_seq(name, q)
    }
}

/// The first index from `k` on whose name and city match in the given pass.
pub open spec fn first_hit_from(
    names: Seq<Seq<char>>,
    cities: Seq<Seq<char>>,
    q: Seq<char>,
    pass: int,
    k: int,
) -> Option<int>
    decreases names.len() - k,
{
    if k < 0 || k >= names.len() {
        None
    } else if hit(pass, names[k], cities[k], q) {
        Some(k)
    } else {
        first_hit_from(names, cities, q, pass, k + 1)
    }
}

/// The zone that one search pass finds.
pub open spec fn pass_hit(
    zones: Seq<Seq<char>>,
    names: Seq<Seq<char>>,
    cities: Seq<Seq<char>>,
    q: Seq<char>,
    pass: int,
) -> Option<Seq<char>> {
    match first_hit_from(names, cities, q, pass, 0) {
        Some(i) => Some(zones[i]),
        None => None,
    }
}

/// The search for `q` in `zones`, given their lower-cased names and cities:
/// the four passes in order, the first zone of the first pass that finds one.
pub open spec fn match_lowered_spec(
    zones: Seq<Seq<char>>,
    names: Seq<Seq<char>>,
    cities: Seq<Seq<char>>,
    q: Seq<char>,
) -> Option<Seq<char>> {
    match pass_hit(zones, names, cities, q, 0) {
        Some(z) => Some(z),
        None => match pass_hit(zones, names, cities, q, 1) {
            Some(z) => Some(z),
            None => match pass_hit(zones, names, cities, q, 2) {
                Some(z) => Some(z),
                None => pass_hit(zones, names, cities, q, 3),
            },
        },
    }
}

/// The search for the lower-cased query `q`: names and cities are
/// lower-cased before they are compared.
pub open spec fn match_timezone_spec(zones: Seq<Seq<char>>, q: Seq<char>) -> Option<Seq<char>> {
    match_lowered_spec(zones, lowered_names(zones), lowered_cities(zones), q)
}

/// The search that `find_timezone` makes: the query trimmed, nothing found
/// for a blank query, otherwise the search for its lower-case form.
pub open spec fn find_timezone_spec(zones: Seq<Seq<char>>, query: Seq<char>) -> Option<Seq<char>> {
    let q = trim_seq(query);
    if q.len() == 0 {
        None
    } else {
        match_timezone_spec(zones, lowercase(q))
    }
}

/// The zones whose lower-cased name or city contains `q`, in order.
pub open spec fn suggested_from(
    zones: Seq<Seq<char>>,
    names: Seq<Seq<char>>,
    cities: Seq<Seq<char>>,
    q: Seq<char>,
) -> Seq<Seq<char>>
    decreases zones.len(),
{
    if zones.len() == 0 {
        Seq::empty()
    } else {
        let rest = suggested_from(zones.drop_last(), names.drop_last(), cities.drop_last(), q);
        if contains_seq(names[zones.len() - 1], q) || contains_seq(cities[zones.len() - 1], q) {
            rest.push(zones.last())
        } else {
            rest
        }
    }
}

/// At most the first five of a list.
pub open spec fn first_five(all: Seq<Seq<char>>) -> Seq<Seq<char>> {
    if all.len() > 5 {
        all.take(5)
    } else {
        all
    }
}

/// The zones suggested for the lower-cased query `q`, in order.
pub open spec fn suggested_zones(zones: Seq<Seq<char>>, q: Seq<char>) -> Seq<Seq<char>> {
    suggested_from(zones, lowered_names(zones), lowered_cities(zones), q)
}

/// At most the first five suggestions.
pub open spec fn suggestions_spec(zones: Seq<Seq<char>>, q: Seq<char>) -> Seq<Seq<char>> {
    first_five(suggested_zones(zones, q))
}

/// The message for a query that matches no zone: the suggestions one per
/// line, or `hint` when there are none.
pub open spec fn not_found_message(query: Seq<char>, suggestions: Seq<Seq<char>>, hint: Seq<char>) -> Seq<char> {
    if suggestions.len() == 0 {
        "Timezone '"@ + query + "' not found. "@ + hint
    } else {
        "Timezone '"@ + query + "' not found. Did you mean:\n"@ + join_seq(suggestions, "\n"@)
    }
}

/// The message for a zone that is already in the list.
pub open spec fn already_exists_message(zone: Seq<char>) -> Seq<char> {
    "Timezone '"@ + zone + "' already exists"@
}

/// What `add_timezone` answers: the zone added, or why none was.
pub open spec fn add_timezone_spec(c: ClockCoreConfig, query: Seq<char>) -> Result<Seq<char>, Seq<char>> {
    match find_timezone_spec(strs(c.iana_timezones@), query) {
        None => Err(
            not_found_message(
                query,
                suggestions_spec(strs(c.iana_timezones@), lowercase(query)),
                "Use IANA format."@,
            ),
        ),
        Some(m) => if strs(c.timezones@).contains(m) {
            Err(already_exists_message(m))
        } else {
            Ok(m)
        },
    }
}

/// A found index is in range and matches.
pub proof fn lemma_first_hit_in_range(
    names: Seq<Seq<char>>,
    cities: Seq<Seq<char>>,
    q: Seq<char>,
    pass: int,
    k: int,
)
    ensures
        first_hit_from(names, cities, q, pass, k) matches Some(i) ==> k <= i < names.len() && hit(
            pass,
            names[i],
            cities[i],
            q,
        ),
    decreases names.len() - k,
{
    if 0 <= k < names.len() && !hit(pass, names[k], cities[k], q) {
        lemma_first_hit_in_range(names, cities, q, pass, k + 1);
    }
}

/// Every zone that the search finds is one of the zones searched.
pub proof fn lemma_match_is_listed(zones: Seq<Seq<char>>, names: Seq<Seq<char>>, cities: Seq<Seq<char>>, q: Seq<char>)
    requires
        names.len() == zones.len(),
    ensures
        match_lowered_spec(zones, names, cities, q) matches Some(z) ==> zones.contains(z),
{
    lemma_first_hit_in_range(names, cities, q, 0, 0);
    lemma_first_hit_in_range(names, cities, q, 1, 0);
    lemma_first_hit_in_range(names, cities, q, 2, 0);
    lemma_first_hit_in_range(names, cities, q, 3, 0);
    match match_lowered_spec(zones, names, cities, q) {
        Some(z) => {
            let i = if pass_hit(zones, names, cities, q, 0) is Some {
                first_hit_from(names, cities, q, 0, 0)->Some_0
            } else if pass_hit(zones, names, cities, q, 1) is Some {
                first_hit_from(names, cities, q, 1, 0)->Some_0
            } else if pass_hit(zones, names, cities, q, 2) is Some {
                first_hit_from(names, cities, q, 2, 0)->Some_0
            } else {
                first_hit_from(names, cities, q, 3, 0)->Some_0
            };
            assert(zones[i] == z);
        },
        None => {},
    }
}

/// The timezones shown when none are configured.
pub fn default_timezones_vec() -> (v: Vec<String>)
    ensures
        strs(v@) == default_timezones_spec(),
{
    let mut v: Vec<String> = Vec::new();
    v.push("Europe/Moscow".to_owned());
    v.push("Europe/London".to_owned());
    v.push("America/New_York".to_owned());
    v.push("Asia/Tokyo".to_owned());
    v.push("Asia/Bangkok".to_owned());
    v.push("Asia/Hong_Kong".to_owned());
    assert(strs(v@) =~= default_timezones_spec());
    v
}

/// The IANA zones known by default.
pub fn default_iana_vec() -> (v: Vec<String>)
    ensures
        strs(v@) == default_iana_spec(),
{
    let mut v: Vec<String> = Vec::new();
    v.push("Africa/Cairo".to_owned());
    v.push("Africa/Johannesburg".to_owned());
    v.push("Africa/Lagos".to_owned());
    v.push("Africa/Nairobi".to_owned());
    v.push("America/Anchorage".to_owned());
    v.push("America/Argentina/Buenos_Aires".to_owned());
    v.push("America/Chicago".to_owned());
    v.push("America/Denver".to_owned());
    v.push("America/Detroit".to_owned());
    v.push("America/Los_Angeles".to_owned());
    v.push("America/Mexico_City".to_owned());
    v.push("America/New_York".to_owned());
    v.push("America/Phoenix".to_owned());
    v.push("America/Sao_Paulo".to_owned());
    v.push("America/Toronto".to_owned());
    v.push("America/Vancouver".to_owned());
    v.push("Asia/Bangkok".to_owned());
    v.push("Asia/Colombo".to_owned());
    v.push("Asia/Dubai".to_owned());
    v.push("Asia/Hong_Kong".to_owned());
    v.push("Asia/Jakarta".to_owned());
    v.push("Asia/Jerusalem".to_owned());
    v.push("Asia/Karachi".to_owned());
    v.push("Asia/Kolkata".to_owned());
    v.push("Asia/Manila".to_owned());
    v.push("Asia/Riyadh".to_owned());
    v.push("Asia/Seoul".to_owned());
    v.push("Asia/Shanghai".to_owned());
    v.push("Asia/Singapore".to_owned());
    v.push("Asia/Taipei".to_owned());
    v.push("Asia/Tokyo".to_owned());
    v.push("Atlantic/Reykjavik".to_owned());
    v.push("Australia/Adelaide".to_owned());
    v.push("Australia/Brisbane".to_owned());
    v.push("Australia/Melbourne".to_owned());
    v.push("Australia/Perth".to_owned());
    v.push("Australia/Sydney".to_owned());
    v.push("Europe/Amsterdam".to_owned());
    v.push("Europe/Athens".to_owned());
    v.push("Europe/Berlin".to_owned());
    v.push("Europe/Brussels".to_owned());
    v.push("Europe/Budapest".to_owned());
    v.push("Europe/Copenhagen".to_owned());
    v.push("Europe/Dublin".to_owned());
    v.push("Europe/Helsinki".to_owned());
    v.push("Europe/Istanbul".to_owned());
    v.push("Europe/Lisbon".to_owned());
    v.push("Europe/London".to_owned());
    v.push("Europe/Madrid".to_owned());
    v.push("Europe/Moscow".to_owned());
    v.push("Europe/Oslo".to_owned());
    v.push("Europe/Paris".to_owned());
    v.push("Europe/Prague".to_owned());
    v.push("Europe/Rome".to_owned());
    v.push("Europe/Stockholm".to_owned());
    v.push("Europe/Vienna".to_owned());
    v.push("Europe/Warsaw".to_owned());
    v.push("Europe/Zurich".to_owned());
    v.push("Pacific/Auckland".to_owned());
    v.push("Pacific/Fiji".to_owned());
    v.push("Pacific/Honolulu".to_owned());
    v.push("UTC".to_owned());
    assert(strs(v@) =~= default_iana_spec());
    v
}

/// The default services.
pub fn default_providers_vec() -> (v: Vec<ProviderConfig>)
    ensures
        is_default_providers(v@),
{
    let mut v: Vec<ProviderConfig> = Vec::new();
    v.push(
        ProviderConfig {
            provider_type: "worldtimeapi".to_owned(),
            priority: 1,
            enabled: true,
            api_key: String::new(),
        },
    );
    v.push(
        ProviderConfig {
            provider_type: "timeapi_io".to_owned(),
            priority: 2,
            enabled: true,
            api_key: String::new(),
        },
    );
    v.push(
        ProviderConfig {
            provider_type: "timezonedb".to_owned(),
            priority: 3,
            enabled: false,
            api_key: String::new(),
        },
    );
    v
}

/// The lower-case forms of each zone's name and of its city.
pub fn lower_zones(zones: &Vec<String>) -> (r: (Vec<String>, Vec<String>))
    ensures
        strs(r.0@) == lowered_names(strs(zones@)),
        strs(r.1@) == lowered_cities(strs(zones@)),
        r.0@.len() == zones@.len(),
        r.1@.len() == zones@.len(),
{
    let ghost zs = strs(zones@);
    let mut names: Vec<String> = Vec::new();
    let mut cities: Vec<String> = Vec::new();
    let mut i: usize = 0;
    while i < zones.len()
        invariant
            i <= zones.len(),
            zs == strs(zones@),
            names@.len() == i,
            cities@.len() == i,
            strs(names@) == lowered_names(zs.take(i as int)),
            strs(cities@) == lowered_cities(zs.take(i as int)),
        decreases zones.len() - i,
    {
        let zone = zones[i].as_str();
        let z = chars_of(zone);
        let city = after_last_exec(z.as_slice(), '/');
        let city_string = string_of(city.as_slice());
        let ghost n0 = strs(names@);
        let ghost c0 = strs(cities@);
        names.push(to_lower(zone));
        cities.push(to_lower(city_string.as_str()));
        proof {
            assert(zs[i as int] == zones@[i as int]@);
            assert(strs(names@) =~= n0.push(lowercase(zs[i as int])));
            assert(strs(cities@) =~= c0.push(lowercase(after_last(zs[i as int], '/'))));
            assert(lowered_names(zs.take(i + 1)) =~= lowered_names(zs.take(i as int)).push(lowercase(zs[i as int])));
            assert(lowered_cities(zs.take(i + 1)) =~= lowered_cities(zs.take(i as int)).push(
                lowercase(after_last(zs[i as int], '/')),
            ));
        }
        i += 1;
    }
    assert(zs.take(zones.len() as int) =~= zs);
    (names, cities)
}

/// Whether a zone's lower-cased `name` and `city` match `q` in the given pass.
fn hit_exec(name: &str, city: &str, q: &[char], pass: u8) -> (b: bool)
    requires
        pass <= 3,
    ensures
        b == hit(pass as int, name@, city@, q@),
{
    if pass == 0 || pass == 3 {
        let l = chars_of(name);
        if pass == 0 {
            chars_eq(l.as_slice(), q)
        } else {
            contains(l.as_slice(), q)
        }
    } else {
        let l = chars_of(city);
        if pass == 1 {
            chars_eq(l.as_slice(), q)
        } else {
            contains(l.as_slice(), q)
        }
    }
}

/// The first zone that matches in the given pass.
fn pass_exec(zones: &Vec<String>, names: &Vec<String>, cities: &Vec<String>, q: &[char], pass: u8) -> (r: Option<String>)
    requires
        pass <= 3,
        names.len() == zones.len(),
        cities.len() == zones.len(),
    ensures
        r matches Some(z) ==> pass_hit(strs(zones@), strs(names@), strs(cities@), q@, pass as int) == Some(z@)
            && zones@.contains(z),
        r is None ==> pass_hit(strs(zones@), strs(names@), strs(cities@), q@, pass as int) is None,
{
    let ghost ns = strs(names@);
    let ghost cs = strs(cities@);
    let mut i: usize = 0;
    while i < zones.len()
        invariant
            i <= zones.len(),
            pass <= 3,
            names.len() == zones.len(),
            cities.len() == zones.len(),
            ns == strs(names@),
            cs == strs(cities@),
            first_hit_from(ns, cs, q@, pass as int, 0) == first_hit_from(ns, cs, q@, pass as int, i as int),
        decreases zones.len() - i,
    {
        assert(ns[i as int] == names@[i as int]@ && cs[i as int] == cities@[i as int]@);
        if hit_exec(names[i].as_str(), cities[i].as_str(), q, pass) {
            let z = zones[i].clone();
            assert(strs(zones@)[i as int] == zones@[i as int]@);
            return Some(z);
        }
        i += 1;
    }
    None
}

/// The search for `q` in `zones`, given the lower-cased `names` and
/// `cities` of the zones, position by position.
pub fn match_lowered(zones: &Vec<String>, names: &Vec<String>, cities: &Vec<String>, q: &[char]) -> (r: Option<String>)
    requires
        names.len() == zones.len(),
        cities.len() == zones.len(),
    ensures
        r matches Some(z) ==> match_lowered_spec(strs(zones@), strs(names@), strs(cities@), q@) == Some(z@)
            && zones@.contains(z),
        r is None ==> match_lowered_spec(strs(zones@), strs(names@), strs(cities@), q@) is None,
{
    match pass_exec(zones, names, cities, q, 0) {
        Some(z) => Some(z),
        None => match pass_exec(zones, names, cities, q, 1) {
            Some(z) => Some(z),
            None => match pass_exec(zones, names, cities, q, 2) {
                Some(z) => Some(z),
                None => pass_exec(zones, names, cities, q, 3),
            },
        },
    }
}

/// The search for the lower-cased query `q` in `zones`.
pub fn match_timezone(zones: &Vec<String>, q: &[char]) -> (r: Option<String>)
    ensures
        r matches Some(z) ==> match_timezone_spec(strs(zones@), q@) == Some(z@) && zones@.contains(z),
        r is None ==> match_timezone_spec(strs(zones@), q@) is None,
{
    let (names, cities) = lower_zones(zones);
    match_lowered(zones, &names, &cities, q)
}

/// The zones whose lower-cased name or city contains `q`, at most five,
/// given the lower-cased `names` and `cities` of the zones.
pub fn suggestions_lowered(zones: &Vec<String>, names: &Vec<String>, cities: &Vec<String>, q: &[char]) -> (r: Vec<String>)
    requires
        names.len() == zones.len(),
        cities.len() == zones.len(),
    ensures
        strs(r@) == first_five(suggested_from(strs(zones@), strs(names@), strs(cities@), q@)),
{
    let ghost zs = strs(zones@);
    let ghost ns = strs(names@);
    let ghost cs = strs(cities@);
    let mut out: Vec<String> = Vec::new();
    let mut i: usize = 0;
    while i < zones.len()
        invariant
            i <= zones.len(),
            names.len() == zones.len(),
            cities.len() == zones.len(),
            zs == strs(zones@),
            ns == strs(names@),
            cs == strs(cities@),
            strs(out@) == suggested_from(zs.take(i as int), ns.take(i as int), cs.take(i as int), q@),
        decreases zones.len() - i,
    {
        let n = chars_of(names[i].as_str());
        let c = chars_of(cities[i].as_str());
        let keep = contains(n.as_slice(), q) || contains(c.as_slice(), q);
        proof {
            assert(zs.take(i + 1).drop_last() =~= zs.take(i as int));
            assert(ns.take(i + 1).drop_last() =~= ns.take(i as int));
            assert(cs.take(i + 1).drop_last() =~= cs.take(i as int));
            assert(zs.take(i + 1).last() == zones@[i as int]@);
            assert(ns.take(i + 1)[i as int] == names@[i as int]@);
            assert(cs.take(i + 1)[i as int] == cities@[i as int]@);
        }
        if keep {
            out.push(zones[i].clone());
            assert(strs(out@) =~= suggested_from(zs.take(i as int), ns.take(i as int), cs.take(i as int), q@).push(
                zones@[i as int]@,
            ));
        }
        i += 1;
    }
    assert(zs.take(zones.len() as int) =~= zs);
    assert(ns.take(zones.len() as int) =~= ns);
    assert(cs.take(zones.len() as int) =~= cs);
    out.truncate(5);
    assert(strs(out@) =~= first_five(suggested_from(zs, ns, cs, q@)));
    out
}

/// The zones suggested for the lower-cased query `q`, at most five.
pub fn suggestions(zones: &Vec<String>, q: &[char]) -> (r: Vec<String>)
    ensures
        strs(r@) == suggestions_spec(strs(zones@), q@),
{
    let (names, cities) = lower_zones(zones);
    suggestions_lowered(zones, &names, &cities, q)
}

/// "Timezone '<query>' not found. " followed by `hint`, or by the suggestions.
pub fn not_found(query: &str, suggested: &Vec<String>, hint: &str) -> (r: String)
    ensures
        r@ == not_found_message(query@, strs(suggested@), hint@),
{
    let mut m = "Timezone '".to_owned();
    push_str(&mut m, query);
    if suggested.len() == 0 {
        push_str(&mut m, "' not found. ");
        push_str(&mut m, hint);
    } else {
        push_str(&mut m, "' not found. Did you mean:\n");
        let joined = join_strings(suggested, "\n");
        push_str(&mut m, joined.as_str());
    }
    m
}

/// "Timezone '<zone>' already exists".
pub fn already_exists(zone: &str) -> (r: String)
    ensures
        r@ == already_exists_message(zone@),
{
    let mut m = "Timezone '".to_owned();
    push_str(&mut m, zone);
    push_str(&mut m, "' already exists");
    m
}

impl ClockCoreConfig {
    /// The timezones shown when none are configured.
    pub fn default_timezones() -> (v: Vec<String>)
        ensures
            strs(v@) == default_timezones_spec(),
    {
        default_timezones_vec()
    }

    /// The default services.
    pub fn default_providers() -> (v: Vec<ProviderConfig>)
        ensures
            is_default_providers(v@),
    {
        default_providers_vec()
    }

    /// The IANA zones known by default.
    pub fn default_iana_timezones() -> (v: Vec<String>)
        ensures
            strs(v@) == default_iana_spec(),
    {
        default_iana_vec()
    }

    /// Fills in what is missing: the default timezones when there are none,
    /// the default services when there are none, and the default IANA list
    /// when the configured one has another length.
    pub fn normalize(&mut self)
        ensures
            normalized(*old(self), *final(self)),
    {
        if self.timezones.len() == 0 {
            self.timezones = Self::default_timezones();
        }
        if self.providers.len() == 0 {
            self.providers = Self::default_providers();
        }
        let default_iana = Self::default_iana_timezones();
        if self.iana_timezones.len() != default_iana.len() {
            self.iana_timezones = default_iana;
        }
    }

    /// Looks `query` up in the known IANA zones: the trimmed query, compared
    /// without regard to case, first with whole names, then with cities,
    /// then as part of a city, then as part of a name.
    pub fn find_timezone(&self, query: &str) -> (r: Option<String>)
        ensures
            r matches Some(z) ==> find_timezone_spec(strs(self.iana_timezones@), query@) == Some(z@)
                && self.iana_timezones@.contains(z),
            r is None ==> find_timezone_spec(strs(self.iana_timezones@), query@) is None,
    {
        let chars = chars_of(query);
        let trimmed = trim(chars.as_slice());
        if trimmed.len() == 0 {
            return None;
        }
        let trimmed_string = string_of(trimmed.as_slice());
        let lower = to_lower(trimmed_string.as_str());
        let q = chars_of(lower.as_str());
        match_timezone(&self.iana_timezones, q.as_slice())
    }

    /// Adds the zone that `query` finds to the timezones shown, and returns it.
    /// When nothing is found the error lists up to five suggestions; a zone
    /// already shown is not added twice.
    pub fn add_timezone(&mut self, query: &str) -> (r: ClockResult<String>)
        ensures
            match r {
                Ok(m) => add_timezone_spec(*old(self), query@) == Ok::<_, Seq<char>>(m@)
                    && final(self).timezones@ == old(self).timezones@.push(m)
                    && old(self).iana_timezones@.contains(m),
                Err(e) => add_timezone_spec(*old(self), query@) == Err::<Seq<char>, _>(e@)
                    && final(self).timezones == old(self).timezones,
            },
            final(self).providers == old(self).providers,
            final(self).iana_timezones == old(self).iana_timezones,
            final(self).last_selected_timezone == old(self).last_selected_timezone,
    {
        match self.find_timezone(query) {
            None => {
                let lower = to_lower(query);
                let q = chars_of(lower.as_str());
                let suggested = suggestions(&self.iana_timezones, q.as_slice());
                Err(not_found(query, &suggested, "Use IANA format."))
            },
            Some(matched) => {
                if contains_string(&self.timezones, &matched) {
                    return Err(already_exists(matched.as_str()));
                }
                self.timezones.push(matched.clone());
                Ok(matched)
            },
        }
    }
}

impl Default for ClockCoreConfig {
    fn default() -> (r: Self)
        ensures
            is_default_config(r),
    {
        ClockCoreConfig {
            timezones: Self::default_timezones(),
            providers: Self::default_providers(),
            iana_timezones: Self::default_iana_timezones(),
            last_selected_timezone: None,
        }
    }
}

// ---------------------------------------------------------------------------
// Laws
// ---------------------------------------------------------------------------

/// Adding the same query twice: the second time nothing is added, and the
/// answer is that the zone already exists.
pub proof fn lemma_add_twice_reports_existing(before: ClockCoreConfig, after: ClockCoreConfig, query: Seq<char>, m: Seq<char>)
    requires
        add_timezone_spec(before, query) == Ok::<_, Seq<char>>(m),
        strs(after.timezones@) == strs(before.timezones@).push(m),
        after.iana_timezones == before.iana_timezones,
    ensures
        add_timezone_spec(after, query) == Err::<Seq<char>, _>(already_exists_message(m)),
{
    assert(strs(after.timezones@)[strs(before.timezones@).len() as int] == m);
}

/// Adding never lists a zone twice: a list without repeats stays without.
pub proof fn lemma_add_keeps_zones_distinct(before: ClockCoreConfig, query: Seq<char>, m: Seq<char>)
    requires
        add_timezone_spec(before, query) == Ok::<_, Seq<char>>(m),
        strs(before.timezones@).no_duplicates(),
    ensures
        strs(before.timezones@).push(m).no_duplicates(),
{
    let zs = strs(before.timezones@);
    assert(!zs.contains(m));
    assert forall|i: int, j: int| 0 <= i < zs.push(m).len() && 0 <= j < zs.push(m).len() && i != j implies zs.push(
        m,
    )[i] != zs.push(m)[j] by {
        if i == zs.len() {
            assert(zs.push(m)[j] == zs[j]);
        } else if j == zs.len() {
            assert(zs.push(m)[i] == zs[i]);
        }
    }
}

/// A zone that adding returns is one of the known IANA zones.
pub proof fn lemma_added_zone_is_known(c: ClockCoreConfig, query: Seq<char>, m: Seq<char>)
    requires
        add_timezone_spec(c, query) == Ok::<_, Seq<char>>(m),
    ensures
        strs(c.iana_timezones@).contains(m),
{
    let q = trim_seq(query);
    let zs = strs(c.iana_timezones@);
    lemma_match_is_listed(zs, lowered_names(zs), lowered_cities(zs), lowercase(q));
}

/// After filling in, nothing is missing: there are timezones and services,
/// and the IANA list has the default length; filling in again changes nothing.
pub proof fn lemma_normalize_is_idempotent(a: ClockCoreConfig, b: ClockCoreConfig, c: ClockCoreConfig)
    requires
        normalized(a, b),
        normalized(b, c),
    ensures
        b.timezones@.len() > 0,
        b.providers@.len() > 0,
        b.iana_timezones@.len() == default_iana_spec().len(),
        c == b,
{
    if a.timezones@.len() == 0 {
        assert(strs(b.timezones@).len() == 6);
    }
    if a.iana_timezones@.len() != default_iana_spec().len() {
        assert(strs(b.iana_timezones@).len() == 62);
    }
}

} // verus!
