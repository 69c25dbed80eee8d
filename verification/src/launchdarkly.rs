//! The flag-rollout collector: judges the rollout of feature flags from the
//! flag details that LaunchDarkly reports.
//!
//! A rollout is kept as an exact fraction of weights, so that every
//! comparison is a comparison of whole numbers.

use crate::check::{add_issues, CheckError};
use crate::state::Timestamp;
use crate::text::{decimal, same, to_decimal};
use vstd::prelude::*;

verus! {

/// A staging rollout is not touched for two hours after a change.
pub const STAGING_QUIET: i64 = 7_200_000;

/// A production rollout is not touched for eighteen hours after a change.
pub const PRODUCTION_QUIET: i64 = 64_800_000;

/// One of the values that a flag can take.
#[derive(Debug, PartialEq, Eq)]
pub struct Variation {
    /// The name given to the variation, if any.
    pub name: Option<String>,
    /// Whether the variation's value is the boolean `true`.
    pub is_true: bool,
}

/// The share of a rollout that goes to one variation.
#[derive(Clone, Copy, Debug, PartialEq, Eq)]
pub struct WeightedVariation {
    /// The position of the variation among the flag's variations.
    pub variation: i32,
    /// Its weight.
    pub weight: i32,
}

/// A flag's settings in one environment.
#[derive(Debug, PartialEq, Eq)]
pub struct Environment {
    /// When the settings were last changed, in milliseconds since the epoch.
    pub last_modified: Option<Timestamp>,
    /// Whether targeting is on.
    pub on: bool,
    /// The weights of the percentage rollout that applies when no rule
    /// matches, where there is one.
    pub rollout: Option<Vec<WeightedVariation>>,
}

/// What LaunchDarkly reports of one flag.
#[derive(Debug, PartialEq, Eq)]
pub struct FlagDetail {
    /// The flag's display name.
    pub name: String,
    /// The flag's kind, such as `boolean`.
    pub kind: String,
    /// The values that the flag can take.
    pub variations: Vec<Variation>,
    /// The settings in the staging environment.
    pub staging: Option<Environment>,
    /// The settings in the production environment.
    pub production: Option<Environment>,
}

/// How far a flag is rolled out: `part` of `whole`. `whole` is never zero.
#[derive(Clone, Copy, Debug, PartialEq, Eq)]
pub struct Share {
    /// The weight of the enabled variation.
    pub part: i32,
    /// The weight of all variations together.
    pub whole: i128,
}

/// What `str::to_lowercase` makes of a text.
pub uninterp spec fn lowercase(text: Seq<char>) -> Seq<char>;

/// `str::to_lowercase`: the text in lower case, by the rules of Unicode.
/// The contract names the result and says nothing of what it is.
#[verifier::external_body]
fn to_lowercase(text: &str) -> (lowered: String)
    ensures
        lowered@ == lowercase(text@),
{
    text.to_lowercase()
}

/// The variation is called `enabled`, in any mix of upper and lower case.
pub open spec fn named_enabled(variation: Variation) -> bool {
    match variation.name {
        Some(name) => lowercase(name@) == "enabled"@,
        None => false,
    }
}

/// The position of the first variation from `from` on that is called
/// `enabled`.
pub open spec fn first_named_enabled(variations: Seq<Variation>, from: int) -> Option<int>
    decreases variations.len() - from,
{
    if from < 0 || from >= variations.len() {
        None
    } else if named_enabled(variations[from]) {
        Some(from)
    } else {
        first_named_enabled(variations, from + 1)
    }
}

/// The position of the first variation from `from` on whose value is `true`.
pub open spec fn first_true(variations: Seq<Variation>, from: int) -> Option<int>
    decreases variations.len() - from,
{
    if from < 0 || from >= variations.len() {
        None
    } else if variations[from].is_true {
        Some(from)
    } else {
        first_true(variations, from + 1)
    }
}

/// The position of the variation that stands for "enabled": the first one
/// called `enabled`, or else the first one whose value is `true`.
pub open spec fn enabled_index(variations: Seq<Variation>) -> Option<int> {
    match first_named_enabled(variations, 0) {
        Some(at) => Some(at),
        None => first_true(variations, 0),
    }
}

/// The sum of the weights of a rollout.
pub open spec fn total_weight(rollout: Seq<WeightedVariation>) -> int
    decreases rollout.len(),
{
    if rollout.len() == 0 {
        0
    } else {
        total_weight(rollout.drop_last()) + rollout.last().weight
    }
}

/// The weight of the first entry from `from` on for the variation at
/// `index`, or 0 where the rollout has no such entry.
pub open spec fn weight_of(rollout: Seq<WeightedVariation>, index: int, from: int) -> int
    decreases rollout.len() - from,
{
    if from < 0 || from >= rollout.len() {
        0
    } else if rollout[from].variation == index {
        rollout[from].weight as int
    } else {
        weight_of(rollout, index, from + 1)
    }
}

/// No rollout at all.
pub open spec fn nothing() -> Share {
    Share { part: 0, whole: 1 }
}

/// How far `flag` is rolled out in `environment`, where that can be told.
/// With targeting off nothing is rolled out. Otherwise only a boolean flag
/// with an enabled variation and a percentage rollout has an answer: the
/// weight of the enabled variation out of the total weight, and nothing
/// where the total is zero.
pub open spec fn share_of(flag: FlagDetail, environment: Environment) -> Option<Share> {
    if !environment.on {
        Some(nothing())
    } else if flag.kind@ != "boolean"@ {
        None
    } else {
        match (enabled_index(flag.variations@), environment.rollout) {
            (Some(index), Some(rollout)) => if total_weight(rollout@) == 0 {
                Some(nothing())
            } else {
                Some(
                    Share {
                        part: weight_of(rollout@, index, 0) as i32,
                        whole: total_weight(rollout@) as i128,
                    },
                )
            },
            _ => None,
        }
    }
}

/// The share is at least `percent` per cent.
pub open spec fn at_least(share: Share, percent: int) -> bool {
    if share.whole > 0 {
        100 * share.part >= percent * share.whole
    } else {
        100 * share.part <= percent * share.whole
    }
}

/// The share is more than nothing.
pub open spec fn started(share: Share) -> bool {
    if share.whole > 0 {
        share.part > 0
    } else {
        share.part < 0
    }
}

/// The share in per cent, rounded to the nearest whole number, a tie going
/// to the even one. It is meant for a share that is not negative.
pub open spec fn rounded_percent(share: Share) -> int {
    let (part, whole) = if share.whole > 0 {
        (share.part as int, share.whole as int)
    } else {
        (-(share.part as int), -(share.whole as int))
    };
    let floor = (100 * part) / whole;
    let rest = (100 * part) % whole;
    if 2 * rest < whole {
        floor
    } else if 2 * rest > whole {
        floor + 1
    } else if floor % 2 == 0 {
        floor
    } else {
        floor + 1
    }
}

/// The bracketed reference to a flag in an environment.
pub open spec fn reference(
    name: Seq<char>,
    project: Seq<char>,
    key: Seq<char>,
    environment: Seq<char>,
) -> Seq<char> {
    "Flag '"@ + name + "' ["@ + project + ":"@ + key + ":"@ + environment + "]"@
}

/// The issue for a flag that is far along in staging and not started in
/// production.
pub open spec fn not_started_issue(
    name: Seq<char>,
    project: Seq<char>,
    key: Seq<char>,
    staging: Share,
) -> Seq<char> {
    reference(name, project, key, "production"@) + " rolled out to "@ + decimal(
        rounded_percent(staging) as nat,
    ) + "% in staging, but not started in production"@
}

/// The issue for a flag whose partial rollout in an environment has not
/// moved for the environment's quiet time.
pub open spec fn stale_issue(
    name: Seq<char>,
    project: Seq<char>,
    key: Seq<char>,
    environment: Seq<char>,
    share: Share,
    quiet: Seq<char>,
) -> Seq<char> {
    reference(name, project, key, environment) + " in "@ + environment + " at partial "@ + decimal(
        rounded_percent(share) as nat,
    ) + "% rollout, not updated in "@ + quiet
}

/// A flag counts as forgotten halfway when staging is rolled out to at
/// least half while production has not started.
pub open spec fn not_started(flag: FlagDetail) -> Option<Share> {
    match (flag.staging, flag.production) {
        (Some(staging), Some(production)) => match (
            share_of(flag, staging),
            share_of(flag, production),
        ) {
            (Some(staged), Some(produced)) => if at_least(staged, 50) && produced.part == 0 {
                Some(staged)
            } else {
                None
            },
            _ => None,
        },
        _ => None,
    }
}

/// A rollout in an environment counts as stale when its settings were last
/// changed at least `quiet` before `now` and it has started without having
/// reached `full` per cent.
pub open spec fn stale(
    flag: FlagDetail,
    environment: Option<Environment>,
    now: Timestamp,
    quiet: int,
    full: int,
) -> Option<Share> {
    match environment {
        Some(settings) => match (settings.last_modified, share_of(flag, settings)) {
            (Some(changed), Some(share)) => if changed <= now - quiet && started(share)
                && !at_least(share, full) {
                Some(share)
            } else {
                None
            },
            _ => None,
        },
        None => None,
    }
}

/// The issue, if any, as a list of none or one.
pub open spec fn listed(issue: Option<Seq<char>>) -> Seq<Seq<char>> {
    match issue {
        Some(text) => seq![text],
        None => Seq::<Seq<char>>::empty(),
    }
}

/// The issues of one flag at `now`: that production has not started, that
/// staging is stale, that production is stale, in this order.
pub open spec fn flag_issues(
    project: Seq<char>,
    key: Seq<char>,
    flag: FlagDetail,
    now: Timestamp,
) -> Seq<Seq<char>> {
    listed(
        match not_started(flag) {
            Some(staged) => Some(not_started_issue(flag.name@, project, key, staged)),
            None => None,
        },
    ) + listed(
        match stale(flag, flag.staging, now, STAGING_QUIET as int, 50) {
            Some(share) => Some(
                stale_issue(flag.name@, project, key, "staging"@, share, "2h"@),
            ),
            None => None,
        },
    ) + listed(
        match stale(flag, flag.production, now, PRODUCTION_QUIET as int, 100) {
            Some(share) => Some(
                stale_issue(flag.name@, project, key, "production"@, share, "18h"@),
            ),
            None => None,
        },
    )
}

/// Finds the variation that stands for "enabled".
pub fn find_enabled(variations: &Vec<Variation>) -> (found: Option<usize>)
    ensures
        match found {
            Some(at) => enabled_index(variations@) == Some(at as int),
            None => enabled_index(variations@) is None,
        },
{
    let mut i: usize = 0;
    while i < variations.len()
        invariant
            i <= variations.len(),
            first_named_enabled(variations@, 0) == first_named_enabled(variations@, i as int),
        decreases variations.len() - i,
    {
        let named = match &variations[i].name {
            Some(name) => same(to_lowercase(name.as_str()).as_str(), "enabled"),
            None => false,
        };
        if named {
            return Some(i);
        }
        i += 1;
    }
    let mut k: usize = 0;
    while k < variations.len()
        invariant
            k <= variations.len(),
            first_named_enabled(variations@, 0) is None,
            first_true(variations@, 0) == first_true(variations@, k as int),
        decreases variations.len() - k,
    {
        if variations[k].is_true {
            return Some(k);
        }
        k += 1;
    }
    None
}

/// Adds up the weights of a rollout.
pub fn sum_weights(rollout: &Vec<WeightedVariation>) -> (total: i128)
    ensures
        total == total_weight(rollout@),
{
    let mut total: i128 = 0;
    let mut i: usize = 0;
    while i < rollout.len()
        invariant
            i <= rollout.len(),
            total == total_weight(rollout@.take(i as int)),
            -0x8000_0000 * i <= total <= 0x7fff_ffff * i,
        decreases rollout.len() - i,
    {
        assert(rollout@.take(i + 1).drop_last() == rollout@.take(i as int));
        total = total + (rollout[i].weight as i128);
        i += 1;
    }
    assert(rollout@.take(i as int) == rollout@);
    total
}

/// Finds the weight that a rollout gives to the variation at `index`.
pub fn find_weight(rollout: &Vec<WeightedVariation>, index: usize) -> (weight: i32)
    ensures
        weight == weight_of(rollout@, index as int, 0),
{
    let mut i: usize = 0;
    while i < rollout.len()
        invariant
            i <= rollout.len(),
            weight_of(rollout@, index as int, 0) == weight_of(rollout@, index as int, i as int),
        decreases rollout.len() - i,
    {
        let variation = rollout[i].variation;
        if variation >= 0 && (variation as u64) == (index as u64) {
            return rollout[i].weight;
        }
        i += 1;
    }
    0
}

/// Tells how far `flag` is rolled out in `environment`.
pub fn get_rollout_percentage(flag: &FlagDetail, environment: &Environment) -> (share: Option<
    Share,
>)
    ensures
        share == share_of(*flag, *environment),
        match share {
            Some(found) => moderate(found),
            None => true,
        },
{
    proof {
        if let Some(rollout) = &environment.rollout {
            lemma_total_weight_bound(rollout@);
            assert(rollout@.len() == rollout.len() <= usize::MAX);
            assert(-0x8000_0000 * rollout@.len() >= -0x8000_0000 * 0x1_0000_0000_0000_0000
                && 0x7fff_ffff * rollout@.len() <= 0x8000_0000 * 0x1_0000_0000_0000_0000)
                by (nonlinear_arith)
                requires
                    0 <= rollout@.len() <= 0x1_0000_0000_0000_0000,
            ;
        }
    }
    if !environment.on {
        return Some(Share { part: 0, whole: 1 });
    }
    if !same(flag.kind.as_str(), "boolean") {
        return None;
    }
    let index = match find_enabled(&flag.variations) {
        Some(index) => index,
        None => {
            return None;
        },
    };
    match &environment.rollout {
        Some(rollout) => {
            let whole = sum_weights(rollout);
            if whole == 0 {
                Some(Share { part: 0, whole: 1 })
            } else {
                Some(Share { part: find_weight(rollout, index), whole })
            }
        },
        None => None,
    }
}

/// The total weight stays within what the weights allow.
pub proof fn lemma_total_weight_bound(rollout: Seq<WeightedVariation>)
    ensures
        -0x8000_0000 * rollout.len() <= total_weight(rollout) <= 0x7fff_ffff * rollout.len(),
    decreases rollout.len(),
{
    if rollout.len() > 0 {
        lemma_total_weight_bound(rollout.drop_last());
    }
}

/// A share that `share_of` gives has a whole of moderate size.
pub open spec fn moderate(share: Share) -> bool {
    share.whole != 0 && -0x8000_0000 * 0x1_0000_0000_0000_0000 <= share.whole <= 0x8000_0000
        * 0x1_0000_0000_0000_0000
}

/// Rounds a share that is not negative to whole per cent.
fn percent_of(share: Share) -> (percent: u64)
    requires
        moderate(share),
        started(share) || share.part == 0,
    ensures
        percent == rounded_percent(share),
{
    let (part, whole): (i128, i128) = if share.whole > 0 {
        (share.part as i128, share.whole)
    } else {
        (-(share.part as i128), -share.whole)
    };
    let scaled: i128 = 100 * part;
    let floor: i128 = scaled / whole;
    let rest: i128 = scaled % whole;
    assert(0 <= floor <= scaled) by (nonlinear_arith)
        requires
            floor == scaled / whole,
            0 <= scaled,
            0 < whole,
    ;
    let rounded: i128 = if rest < whole - rest {
        floor
    } else if rest > whole - rest {
        floor + 1
    } else if floor % 2 == 0 {
        floor
    } else {
        floor + 1
    };
    rounded as u64
}

/// Writes the reference to a flag in an environment.
fn write_reference(name: &str, project: &str, key: &str, environment: &str) -> (out: String)
    ensures
        out@ == reference(name@, project@, key@, environment@),
{
    let mut out = String::from_str("Flag '");
    out.append(name);
    out.append("' [");
    out.append(project);
    out.append(":");
    out.append(key);
    out.append(":");
    out.append(environment);
    out.append("]");
    out
}

/// Tells whether a share is at least `percent` per cent.
fn is_at_least(share: Share, percent: u8) -> (yes: bool)
    requires
        moderate(share),
        1 <= percent <= 100,
    ensures
        yes == at_least(share, percent as int),
{
    let scaled: i128 = 100 * (share.part as i128);
    assert(-100 * (0x8000_0000 * 0x1_0000_0000_0000_0000) <= percent * share.whole <= 100 * (
    0x8000_0000 * 0x1_0000_0000_0000_0000)) by (nonlinear_arith)
        requires
            1 <= percent <= 100,
            -0x8000_0000 * 0x1_0000_0000_0000_0000 <= share.whole <= 0x8000_0000
                * 0x1_0000_0000_0000_0000,
    ;
    let needed: i128 = (percent as i128) * share.whole;
    if share.whole > 0 {
        scaled >= needed
    } else {
        scaled <= needed
    }
}

/// The collector for feature flags.
pub struct LaunchDarklyChecker {
    api_token: String,
    maintainer_id: String,
    project_key: String,
}

/// The issue that production has not started, if it holds of `flag`.
fn check_not_started(project: &str, key: &str, flag: &FlagDetail) -> (issue: Option<String>)
    ensures
        match not_started(*flag) {
            Some(staged) => issue is Some && issue->Some_0@ == not_started_issue(
                flag.name@,
                project@,
                key@,
                staged,
            ),
            None => issue is None,
        },
{
    let (staging, production) = match (&flag.staging, &flag.production) {
        (Some(staging), Some(production)) => (staging, production),
        _ => {
            return None;
        },
    };
    let (staged, produced) = match (
        get_rollout_percentage(flag, staging),
        get_rollout_percentage(flag, production),
    ) {
        (Some(staged), Some(produced)) => (staged, produced),
        _ => {
            return None;
        },
    };
    if !(is_at_least(staged, 50) && produced.part == 0) {
        return None;
    }
    assert(started(staged)) by (nonlinear_arith)
        requires
            at_least(staged, 50),
            staged.whole != 0,
    ;
    let mut issue = write_reference(flag.name.as_str(), project, key, "production");
    issue.append(" rolled out to ");
    issue.append(to_decimal(percent_of(staged)).as_str());
    issue.append("% in staging, but not started in production");
    Some(issue)
}

/// The issue that the rollout in one environment is stale, if it is.
fn check_stale(
    project: &str,
    key: &str,
    flag: &FlagDetail,
    environment: &Option<Environment>,
    label: &str,
    now: Timestamp,
    quiet: i64,
    full: u8,
    quiet_label: &str,
) -> (issue: Option<String>)
    requires
        1 <= full <= 100,
    ensures
        match stale(*flag, *environment, now, quiet as int, full as int) {
            Some(share) => issue is Some && issue->Some_0@ == stale_issue(
                flag.name@,
                project@,
                key@,
                label@,
                share,
                quiet_label@,
            ),
            None => issue is None,
        },
{
    let settings = match environment {
        Some(settings) => settings,
        None => {
            return None;
        },
    };
    let changed = match settings.last_modified {
        Some(changed) => changed,
        None => {
            return None;
        },
    };
    if (changed as i128) > (now as i128) - (quiet as i128) {
        return None;
    }
    let share = match get_rollout_percentage(flag, settings) {
        Some(share) => share,
        None => {
            return None;
        },
    };
    let has_started = if share.whole > 0 {
        share.part > 0
    } else {
        share.part < 0
    };
    if !has_started || is_at_least(share, full) {
        return None;
    }
    let mut issue = write_reference(flag.name.as_str(), project, key, label);
    issue.append(" in ");
    issue.append(label);
    issue.append(" at partial ");
    issue.append(to_decimal(percent_of(share)).as_str());
    issue.append("% rollout, not updated in ");
    issue.append(quiet_label);
    Some(issue)
}

/// Adds an issue, if there is one, to the end of `issues`.
fn push_issue(issues: &mut Vec<String>, issue: Option<String>)
    ensures
        final(issues).deep_view() == old(issues).deep_view() + listed(
            match issue {
                Some(text) => Some(text@),
                None => None,
            },
        ),
{
    match issue {
        Some(text) => {
            issues.push(text);
        },
        None => {},
    }
}

/// The issues of the flags in `flags`, flag after flag.
pub open spec fn issues_of_flags(
    project: Seq<char>,
    flags: Seq<(String, FlagDetail)>,
    now: Timestamp,
) -> Seq<Seq<char>>
    decreases flags.len(),
{
    if flags.len() == 0 {
        Seq::<Seq<char>>::empty()
    } else {
        issues_of_flags(project, flags.drop_last(), now) + flag_issues(
            project,
            flags.last().0@,
            flags.last().1,
            now,
        )
    }
}

impl LaunchDarklyChecker {
    /// The API token that requests are made with.
    pub closed spec fn token(&self) -> Seq<char> {
        self.api_token@
    }

    /// The maintainer whose flags are checked.
    pub closed spec fn maintainer(&self) -> Seq<char> {
        self.maintainer_id@
    }

    /// The project whose flags are checked.
    pub closed spec fn project(&self) -> Seq<char> {
        self.project_key@
    }

    /// A collector with the given settings. The API token and the
    /// maintainer are needed; the project is `default` where none is given.
    pub fn new(
        api_token: Option<String>,
        maintainer_id: Option<String>,
        project_key: Option<String>,
    ) -> (outcome: Result<Self, CheckError>)
        ensures
            match (api_token, maintainer_id) {
                (Some(token), Some(maintainer)) => {
                    &&& outcome is Ok
                    &&& outcome->Ok_0.token() == token@
                    &&& outcome->Ok_0.maintainer() == maintainer@
                    &&& outcome->Ok_0.project() == match project_key {
                        Some(project) => project@,
                        None => "default"@,
                    }
                },
                (None, _) => outcome is Err && outcome->Err_0 == CheckError::MissingApiToken,
                (Some(_), None) => outcome is Err && outcome->Err_0
                    == CheckError::MissingMaintainerId,
            },
    {
        let api_token = match api_token {
            Some(token) => token,
            None => {
                return Err(CheckError::MissingApiToken);
            },
        };
        let maintainer_id = match maintainer_id {
            Some(maintainer) => maintainer,
            None => {
                return Err(CheckError::MissingMaintainerId);
            },
        };
        let project_key = match project_key {
            Some(project) => project,
            None => String::from_str("default"),
        };
        Ok(LaunchDarklyChecker { api_token, maintainer_id, project_key })
    }

    /// The API token that requests are made with.
    pub fn api_token(&self) -> (token: &str)
        ensures
            token@ == self.token(),
    {
        self.api_token.as_str()
    }

    /// The maintainer whose flags are checked.
    pub fn maintainer_id(&self) -> (maintainer: &str)
        ensures
            maintainer@ == self.maintainer(),
    {
        self.maintainer_id.as_str()
    }

    /// The project whose flags are checked.
    pub fn project_key(&self) -> (project: &str)
        ensures
            project@ == self.project(),
    {
        self.project_key.as_str()
    }

    /// The address that lists the maintainer's flags.
    pub fn list_url(&self) -> (url: String)
        ensures
            url@ == "https://app.launchdarkly.com/api/v2/flags/"@ + self.project()
                + "?filter=maintainerId:"@ + self.maintainer(),
    {
        let mut url = String::from_str("https://app.launchdarkly.com/api/v2/flags/");
        url.append(self.project_key.as_str());
        url.append("?filter=maintainerId:");
        url.append(self.maintainer_id.as_str());
        url
    }

    /// The address that gives the details of the flag with the key `key`.
    pub fn detail_url(&self, key: &str) -> (url: String)
        ensures
            url@ == "https://app.launchdarkly.com/api/v2/flags/"@ + self.project() + "/"@ + key@,
    {
        let mut url = String::from_str("https://app.launchdarkly.com/api/v2/flags/");
        url.append(self.project_key.as_str());
        url.append("/");
        url.append(key);
        url
    }

    /// The issues of one flag at `now`.
    pub fn check_flag(&self, key: &str, flag: &FlagDetail, now: Timestamp) -> (issues: Vec<
        String,
    >)
        ensures
            issues.deep_view() == flag_issues(self.project(), key@, *flag, now),
    {
        let project = self.project_key.as_str();
        let mut issues: Vec<String> = Vec::new();
        push_issue(&mut issues, check_not_started(project, key, flag));
        push_issue(
            &mut issues,
            check_stale(project, key, flag, &flag.staging, "staging", now, STAGING_QUIET, 50, "2h"),
        );
        push_issue(
            &mut issues,
            check_stale(
                project,
                key,
                flag,
                &flag.production,
                "production",
                now,
                PRODUCTION_QUIET,
                100,
                "18h",
            ),
        );
        issues
    }

    /// The issues at `now` of the flags whose details were fetched, each
    /// given with its key, flag after flag.
    pub fn check_flags(&self, flags: &Vec<(String, FlagDetail)>, now: Timestamp) -> (issues: Vec<
        String,
    >)
        ensures
            issues.deep_view() == issues_of_flags(self.project(), flags@, now),
    {
        let mut issues: Vec<String> = Vec::new();
        let mut i: usize = 0;
        while i < flags.len()
            invariant
                i <= flags.len(),
                issues.deep_view() == issues_of_flags(self.project(), flags@.take(i as int), now),
            decreases flags.len() - i,
        {
            assert(flags@.take(i + 1).drop_last() == flags@.take(i as int));
            add_issues(&mut issues, self.check_flag(flags[i].0.as_str(), &flags[i].1, now));
            i += 1;
        }
        assert(flags@.take(i as int) == flags@);
        issues
    }
}

} // verus!
