//! The part of a connection that an agent may see, and how a connection is selected.
use vstd::prelude::*;

use crate::error::{AppError, AppResult};
use crate::ids::{hyphenated, id_text};
use crate::model::{ConnectionProfile, Engine};
use crate::operations::PinnedConnection;
use crate::services::terminal_authority::TerminalAuthority;
use crate::text::{same_text, Text};

verus! {

/// What an agent sees of a connection. It has no host, user, credential, driver, provider
/// or parameter.
#[derive(Debug, PartialEq, Eq)]
pub struct AgentConnectionSummary {
    pub id: u128,
    pub name: String,
    pub engine: Engine,
    pub database: String,
    pub environment: Option<String>,
    pub readonly: bool,
    pub allow_writes: bool,
}

/// What an agent sees of this profile.
pub open spec fn summary_of(profile: ConnectionProfile) -> AgentConnectionSummary {
    AgentConnectionSummary {
        id: profile.id,
        name: profile.name,
        engine: profile.engine,
        database: profile.database,
        environment: profile.env,
        readonly: profile.readonly_default,
        allow_writes: profile.allow_writes,
    }
}

impl From<&ConnectionProfile> for AgentConnectionSummary {
    fn from(profile: &ConnectionProfile) -> (r: AgentConnectionSummary) {
        AgentConnectionSummary {
            id: profile.id,
            name: profile.name.clone(),
            engine: profile.engine,
            database: profile.database.clone(),
            environment: profile.env.clone(),
            readonly: profile.readonly_default,
            allow_writes: profile.allow_writes,
        }
    }
}

impl vstd::std_specs::convert::FromSpecImpl<&ConnectionProfile> for AgentConnectionSummary {
    open spec fn obeys_from_spec() -> bool {
        true
    }

    open spec fn from_spec(profile: &ConnectionProfile) -> AgentConnectionSummary {
        summary_of(*profile)
    }
}

impl AgentConnectionSummary {
    /// An equal summary.
    pub fn duplicate(&self) -> (r: AgentConnectionSummary)
        ensures
            r == *self,
    {
        AgentConnectionSummary {
            id: self.id,
            name: self.name.clone(),
            engine: self.engine,
            database: self.database.clone(),
            environment: self.environment.clone(),
            readonly: self.readonly,
            allow_writes: self.allow_writes,
        }
    }
}

/// What an agent sees of these profiles.
pub fn list_agent_summaries(profiles: &Vec<ConnectionProfile>) -> (r: Vec<AgentConnectionSummary>)
    ensures
        r@ == profiles@.map_values(|profile: ConnectionProfile| summary_of(profile)),
{
    let mut summaries: Vec<AgentConnectionSummary> = Vec::new();
    let mut i: usize = 0;
    while i < profiles.len()
        invariant
            i <= profiles@.len(),
            summaries@ == profiles@.subrange(0, i as int).map_values(
                |profile: ConnectionProfile| summary_of(profile),
            ),
        decreases profiles@.len() - i,
    {
        summaries.push(AgentConnectionSummary::from(&profiles[i]));
        i = i + 1;
        assert(summaries@ =~= profiles@.subrange(0, i as int).map_values(
            |profile: ConnectionProfile| summary_of(profile),
        ));
    }
    assert(profiles@.subrange(0, profiles@.len() as int) =~= profiles@);
    summaries
}

/// What a Terminal session sees of the connection it was opened on, at the profile that
/// was pinned for it.
pub fn terminal_summary(
    authority: &TerminalAuthority,
    pin: &PinnedConnection,
    profile: &ConnectionProfile,
) -> (r: AppResult<AgentConnectionSummary>)
    ensures
        authority.covers(*pin) ==> r == AppResult::Ok(summary_of(*profile)),
        !authority.covers(*pin) ==> (r matches Err(error) && error.text()
            == Text::Plain("Terminal connection authority is no longer current")
            && error is Blocked),
{
    match authority.ensure_pin(pin) {
        Err(error) => Err(error),
        Ok(_) => Ok(AgentConnectionSummary::from(profile)),
    }
}

/// The connections that a Terminal session may list: its own and no other.
pub fn list_terminal_summaries(
    authority: &TerminalAuthority,
    pin: &PinnedConnection,
    profile: &ConnectionProfile,
) -> (r: AppResult<Vec<AgentConnectionSummary>>)
    ensures
        authority.covers(*pin) ==> (r matches Ok(listed) && listed@ == seq![summary_of(*profile)]),
        !authority.covers(*pin) ==> (r matches Err(error) && error.text()
            == Text::Plain("Terminal connection authority is no longer current")
            && error is Blocked),
{
    match terminal_summary(authority, pin, profile) {
        Err(error) => Err(error),
        Ok(summary) => {
            let listed = vec![summary];
            assert(listed@ =~= seq![summary_of(*profile)]);
            Ok(listed)
        },
    }
}

/// Why a selector of the older form selects nothing.
#[derive(Debug, PartialEq, Eq)]
pub enum LegacyConnectionResolutionError {
    NoConnections,
    NoMatch { selector: String },
}

impl LegacyConnectionResolutionError {
    /// The text for people.
    pub open spec fn text(self) -> Text {
        match self {
            LegacyConnectionResolutionError::NoConnections => Text::Plain(
                "no connections are available",
            ),
            LegacyConnectionResolutionError::NoMatch { selector } => Text::WithText(
                "no connection matches selector '",
                selector,
                "'",
            ),
        }
    }

    /// The text for people.
    pub fn message(&self) -> (r: String)
        ensures
            r@ == self.text()@,
    {
        match self {
            LegacyConnectionResolutionError::NoConnections => Text::Plain(
                "no connections are available",
            ).render(),
            LegacyConnectionResolutionError::NoMatch { selector } => Text::WithText(
                "no connection matches selector '",
                selector.clone(),
                "'",
            ).render(),
        }
    }
}

/// The summary that a selector of the older form selects.
pub type LegacyConnectionResolution = Result<
    AgentConnectionSummary,
    LegacyConnectionResolutionError,
>;

/// Whether a profile has this id, written out, or this name.
pub open spec fn answers_to(profile: ConnectionProfile, selector: Seq<char>) -> bool {
    hyphenated(profile.id) == selector || profile.name@ == selector
}

/// The first profile that answers to the selector.
pub open spec fn first_answering(
    profiles: Seq<ConnectionProfile>,
    selector: Seq<char>,
) -> Option<ConnectionProfile>
    decreases profiles.len(),
{
    if profiles.len() == 0 {
        None
    } else if answers_to(profiles[0], selector) {
        Some(profiles[0])
    } else {
        first_answering(profiles.drop_first(), selector)
    }
}

/// Selects among profiles in order of name: without a selector the first, else the first
/// whose id, written out, or whose name is the selector.
pub fn resolve_legacy_profiles(
    profiles: &Vec<ConnectionProfile>,
    selector: Option<&str>,
) -> (r: LegacyConnectionResolution)
    ensures
        match selector {
            None => if profiles@.len() > 0 {
                r == LegacyConnectionResolution::Ok(summary_of(profiles@[0]))
            } else {
                r matches Err(LegacyConnectionResolutionError::NoConnections)
            },
            Some(wanted) => match first_answering(profiles@, wanted@) {
                Some(profile) => r == LegacyConnectionResolution::Ok(summary_of(profile)),
                None => r matches Err(LegacyConnectionResolutionError::NoMatch { selector: echoed })
                    && echoed@ == wanted@,
            },
        },
{
    match selector {
        None => {
            if profiles.len() > 0 {
                Ok(AgentConnectionSummary::from(&profiles[0]))
            } else {
                Err(LegacyConnectionResolutionError::NoConnections)
            }
        },
        Some(wanted) => {
            let mut i: usize = 0;
            assert(profiles@.subrange(0, profiles@.len() as int) =~= profiles@);
            while i < profiles.len()
                invariant
                    i <= profiles@.len(),
                    selector == Some(wanted),
                    first_answering(profiles@, wanted@) == first_answering(
                        profiles@.subrange(i as int, profiles@.len() as int),
                        wanted@,
                    ),
                decreases profiles@.len() - i,
            {
                assert(profiles@.subrange(i as int, profiles@.len() as int).drop_first()
                    =~= profiles@.subrange(i + 1, profiles@.len() as int));
                let id = id_text(profiles[i].id);
                if same_text(id.as_str(), wanted) || same_text(profiles[i].name.as_str(), wanted) {
                    return Ok(AgentConnectionSummary::from(&profiles[i]));
                }
                i = i + 1;
            }
            Err(LegacyConnectionResolutionError::NoMatch { selector: wanted.to_owned() })
        },
    }
}

/// How the command line names a connection.
#[derive(Debug, PartialEq, Eq)]
pub enum ConnectionSelector {
    Id(u128),
    Name(String),
    Current,
}

/// Why a selector of the command line selects nothing.
#[derive(Debug, PartialEq, Eq)]
pub enum CliConnectionResolutionError {
    NoMatch,
    Ambiguous { candidates: Vec<AgentConnectionSummary> },
}

impl CliConnectionResolutionError {
    /// The text for people.
    pub open spec fn text(self) -> &'static str {
        match self {
            CliConnectionResolutionError::NoMatch => "no connection matches the exact selector",
            CliConnectionResolutionError::Ambiguous { .. } =>
                "the exact connection name matches more than one connection",
        }
    }

    /// The text for people.
    pub fn message(&self) -> (r: &'static str)
        ensures
            r == self.text(),
    {
        match self {
            CliConnectionResolutionError::NoMatch => "no connection matches the exact selector",
            CliConnectionResolutionError::Ambiguous { .. } =>
                "the exact connection name matches more than one connection",
        }
    }
}

/// The first summary with this id.
pub open spec fn with_id(summaries: Seq<AgentConnectionSummary>, id: u128) -> Option<
    AgentConnectionSummary,
>
    decreases summaries.len(),
{
    if summaries.len() == 0 {
        None
    } else if summaries[0].id == id {
        Some(summaries[0])
    } else {
        with_id(summaries.drop_first(), id)
    }
}

/// Computes [`with_id`].
fn find_by_id(summaries: &Vec<AgentConnectionSummary>, id: u128) -> (r: Option<
    AgentConnectionSummary,
>)
    ensures
        r == with_id(summaries@, id),
{
    let mut i: usize = 0;
    assert(summaries@.subrange(0, summaries@.len() as int) =~= summaries@);
    while i < summaries.len()
        invariant
            i <= summaries@.len(),
            with_id(summaries@, id) == with_id(
                summaries@.subrange(i as int, summaries@.len() as int),
                id,
            ),
        decreases summaries@.len() - i,
    {
        assert(summaries@.subrange(i as int, summaries@.len() as int).drop_first()
            =~= summaries@.subrange(i + 1, summaries@.len() as int));
        if summaries[i].id == id {
            return Some(summaries[i].duplicate());
        }
        i = i + 1;
    }
    None
}

/// How many summaries, from the front, have an id up to this one.
pub open spec fn rank(sorted: Seq<AgentConnectionSummary>, id: u128) -> nat
    decreases sorted.len(),
{
    if sorted.len() == 0 || sorted[0].id > id {
        0
    } else {
        1 + rank(sorted.drop_first(), id)
    }
}

/// The summaries with this name, in order of id. Those with the same id keep their order.
pub open spec fn named(summaries: Seq<AgentConnectionSummary>, name: Seq<char>) -> Seq<
    AgentConnectionSummary,
>
    decreases summaries.len(),
{
    if summaries.len() == 0 {
        Seq::empty()
    } else {
        let earlier = named(summaries.drop_last(), name);
        if summaries.last().name@ == name {
            earlier.insert(rank(earlier, summaries.last().id) as int, summaries.last())
        } else {
            earlier
        }
    }
}

proof fn rank_is_bounded(sorted: Seq<AgentConnectionSummary>, id: u128)
    ensures
        rank(sorted, id) <= sorted.len(),
        forall|i: int| 0 <= i < rank(sorted, id) ==> sorted[i].id <= id,
        rank(sorted, id) < sorted.len() ==> sorted[rank(sorted, id) as int].id > id,
    decreases sorted.len(),
{
    if sorted.len() > 0 && sorted[0].id <= id {
        let rest = sorted.drop_first();
        rank_is_bounded(rest, id);
        assert forall|i: int| 0 <= i < rank(sorted, id) implies sorted[i].id <= id by {
            if i > 0 {
                assert(sorted[i] == rest[i - 1]);
            }
        }
        if rank(sorted, id) < sorted.len() {
            assert(sorted[rank(sorted, id) as int] == rest[rank(rest, id) as int]);
        }
    }
}

proof fn rank_at(sorted: Seq<AgentConnectionSummary>, id: u128, at: int)
    requires
        0 <= at <= sorted.len(),
        forall|i: int| 0 <= i < at ==> sorted[i].id <= id,
        at < sorted.len() ==> sorted[at].id > id,
    ensures
        rank(sorted, id) == at,
    decreases sorted.len(),
{
    if at > 0 {
        assert(sorted[0].id <= id);
        let rest = sorted.drop_first();
        assert forall|i: int| 0 <= i < at - 1 implies rest[i].id <= id by {
            assert(rest[i] == sorted[i + 1]);
        }
        rank_at(rest, id, at - 1);
    }
}

/// Puts a summary in its place by id, behind those with the same id.
fn insert_by_id(sorted: &mut Vec<AgentConnectionSummary>, summary: AgentConnectionSummary)
    ensures
        final(sorted)@ == old(sorted)@.insert(
            rank(old(sorted)@, summary.id) as int,
            summary,
        ),
{
    let mut at: usize = 0;
    while at < sorted.len() && sorted[at].id <= summary.id
        invariant
            at <= sorted@.len(),
            sorted@ == old(sorted)@,
            forall|i: int| 0 <= i < at ==> sorted@[i].id <= summary.id,
        decreases sorted@.len() - at,
    {
        at = at + 1;
    }
    proof {
        rank_at(sorted@, summary.id, at as int);
    }
    sorted.insert(at, summary);
}

/// Whether `r` is what a selector selects: the summary with the id, or the only one with the
/// name.
pub open spec fn resolves(
    summaries: Seq<AgentConnectionSummary>,
    selector: ConnectionSelector,
    current_connection_id: u128,
    r: Result<AgentConnectionSummary, CliConnectionResolutionError>,
) -> bool {
    match selector {
        ConnectionSelector::Name(name) => {
            let found = named(summaries, name@);
            if found.len() == 0 {
                r matches Err(CliConnectionResolutionError::NoMatch)
            } else if found.len() == 1 {
                r == Ok::<AgentConnectionSummary, CliConnectionResolutionError>(found[0])
            } else {
                r matches Err(CliConnectionResolutionError::Ambiguous { candidates })
                    && candidates@ == found
            }
        },
        _ => {
            let id = match selector {
                ConnectionSelector::Id(id) => id,
                _ => current_connection_id,
            };
            match with_id(summaries, id) {
                Some(found) => r == Ok::<AgentConnectionSummary, CliConnectionResolutionError>(
                    found,
                ),
                None => r matches Err(CliConnectionResolutionError::NoMatch),
            }
        },
    }
}

/// Resolves an exact selector. A name that several connections share selects none of them:
/// the answer lists them all, in order of id.
pub fn resolve_cli_summaries(
    summaries: &Vec<AgentConnectionSummary>,
    selector: &ConnectionSelector,
    current_connection_id: u128,
) -> (r: Result<AgentConnectionSummary, CliConnectionResolutionError>)
    ensures
        resolves(summaries@, *selector, current_connection_id, r),
{
    match selector {
        ConnectionSelector::Id(id) => match find_by_id(summaries, *id) {
            Some(summary) => Ok(summary),
            None => Err(CliConnectionResolutionError::NoMatch),
        },
        ConnectionSelector::Current => match find_by_id(summaries, current_connection_id) {
            Some(summary) => Ok(summary),
            None => Err(CliConnectionResolutionError::NoMatch),
        },
        ConnectionSelector::Name(name) => {
            let mut candidates: Vec<AgentConnectionSummary> = Vec::new();
            let mut i: usize = 0;
            while i < summaries.len()
                invariant
                    i <= summaries@.len(),
                    candidates@ == named(summaries@.subrange(0, i as int), name@),
                decreases summaries@.len() - i,
            {
                assert(summaries@.subrange(0, i + 1).drop_last() =~= summaries@.subrange(
                    0,
                    i as int,
                ));
                if same_text(summaries[i].name.as_str(), name.as_str()) {
                    insert_by_id(&mut candidates, summaries[i].duplicate());
                }
                i = i + 1;
            }
            assert(summaries@.subrange(0, summaries@.len() as int) =~= summaries@);
            if candidates.len() == 0 {
                Err(CliConnectionResolutionError::NoMatch)
            } else if candidates.len() == 1 {
                Ok(candidates[0].duplicate())
            } else {
                Err(CliConnectionResolutionError::Ambiguous { candidates })
            }
        },
    }
}

/// Resolves an exact selector for a Terminal session, among the connections of the scope
/// that it was opened in.
pub fn resolve_terminal_cli(
    authority: &TerminalAuthority,
    pin: &PinnedConnection,
    profiles: &Vec<ConnectionProfile>,
    selector: &ConnectionSelector,
) -> (r: AppResult<Result<AgentConnectionSummary, CliConnectionResolutionError>>)
    ensures
        !authority.covers(*pin) ==> (r matches Err(error) && error.text()
            == Text::Plain("Terminal connection authority is no longer current")
            && error is Blocked),
        authority.covers(*pin) ==> r is Ok && resolves(
            profiles@.map_values(|profile: ConnectionProfile| summary_of(profile)),
            *selector,
            authority.connection_id,
            r->Ok_0,
        ),
{
    match authority.ensure_pin(pin) {
        Err(error) => Err(error),
        Ok(_) => {
            let summaries = list_agent_summaries(profiles);
            Ok(resolve_cli_summaries(&summaries, selector, authority.connection_id))
        },
    }
}

/// The summaries listed for a name are exactly those with that name, each as often as it
/// occurs, and they are in order of id.
pub proof fn named_lists_every_bearer_in_order(
    summaries: Seq<AgentConnectionSummary>,
    name: Seq<char>,
)
    ensures
        forall|i: int, j: int|
            0 <= i <= j < named(summaries, name).len() ==> named(summaries, name)[i].id <= named(
                summaries,
                name,
            )[j].id,
        named(summaries, name).to_multiset() == summaries.filter(
            |summary: AgentConnectionSummary| summary.name@ == name,
        ).to_multiset(),
    decreases summaries.len(),
{
    let bears = |summary: AgentConnectionSummary| summary.name@ == name;
    if summaries.len() == 0 {
        reveal(Seq::filter);
        assert(summaries.filter(bears) =~= Seq::empty());
        assert(named(summaries, name) =~= Seq::empty());
    } else {
        let earlier = named(summaries.drop_last(), name);
        let last = summaries.last();
        named_lists_every_bearer_in_order(summaries.drop_last(), name);
        rank_is_bounded(earlier, last.id);
        let at = rank(earlier, last.id) as int;
        assert(summaries =~= summaries.drop_last().push(last));
        reveal(Seq::filter);
        if bears(last) {
            let all = earlier.insert(at, last);
            assert forall|i: int, j: int| 0 <= i <= j < all.len() implies all[i].id
                <= all[j].id by {
                if j > at && at < earlier.len() {
                    assert(earlier[at].id <= earlier[j - 1].id);
                }
            }
            assert(summaries.filter(bears) == summaries.drop_last().filter(bears).push(last));
            vstd::seq_lib::to_multiset_insert(earlier, at, last);
            vstd::seq_lib::to_multiset_build(summaries.drop_last().filter(bears), last);
        } else {
            assert(summaries.filter(bears) == summaries.drop_last().filter(bears));
        }
    }
}

/// Whether no two of the summaries have the same id.
pub open spec fn ids_differ(summaries: Seq<AgentConnectionSummary>) -> bool {
    forall|i: int, j: int|
        0 <= i < j < summaries.len() ==> (#[trigger] summaries[i]).id != (
        #[trigger] summaries[j]).id
}

/// Whether the ids go up from each summary to the next.
pub open spec fn ids_go_up(summaries: Seq<AgentConnectionSummary>) -> bool {
    forall|i: int, j: int|
        0 <= i < j < summaries.len() ==> (#[trigger] summaries[i]).id < (
        #[trigger] summaries[j]).id
}

proof fn named_are_the_bearers(
    summaries: Seq<AgentConnectionSummary>,
    name: Seq<char>,
    summary: AgentConnectionSummary,
)
    ensures
        named(summaries, name).contains(summary) <==> summaries.contains(summary)
            && summary.name@ == name,
    decreases summaries.len(),
{
    if summaries.len() > 0 {
        let before = summaries.drop_last();
        let last = summaries.last();
        let earlier = named(before, name);
        named_are_the_bearers(before, name, summary);
        assert(summaries =~= before.push(last));
        assert(summaries.contains(summary) <==> before.contains(summary) || summary == last) by {
            if before.contains(summary) {
                let i = choose|i: int| 0 <= i < before.len() && before[i] == summary;
                assert(summaries[i] == summary);
            }
            if summary == last {
                assert(summaries[summaries.len() - 1] == summary);
            }
        }
        if last.name@ == name {
            rank_is_bounded(earlier, last.id);
            let at = rank(earlier, last.id) as int;
            let all = earlier.insert(at, last);
            if earlier.contains(summary) {
                let i = choose|i: int| 0 <= i < earlier.len() && earlier[i] == summary;
                assert(all[if i < at {
                    i
                } else {
                    i + 1
                }] == summary);
            }
            assert(all[at] == last);
            if all.contains(summary) && summary != last {
                let i = choose|i: int| 0 <= i < all.len() && all[i] == summary;
                assert(earlier[if i < at {
                    i
                } else {
                    i - 1
                }] == summary);
            }
        }
    }
}

proof fn named_go_up(summaries: Seq<AgentConnectionSummary>, name: Seq<char>)
    requires
        ids_differ(summaries),
    ensures
        ids_go_up(named(summaries, name)),
    decreases summaries.len(),
{
    if summaries.len() > 0 {
        let before = summaries.drop_last();
        let last = summaries.last();
        let earlier = named(before, name);
        assert forall|i: int, j: int| 0 <= i < j < before.len() implies (#[trigger] before[i]).id
            != (#[trigger] before[j]).id by {
            assert(before[i] == summaries[i] && before[j] == summaries[j]);
        }
        named_go_up(before, name);
        if last.name@ == name {
            rank_is_bounded(earlier, last.id);
            let at = rank(earlier, last.id) as int;
            let all = earlier.insert(at, last);
            assert forall|i: int| 0 <= i < earlier.len() implies (#[trigger] earlier[i]).id
                != last.id by {
                named_are_the_bearers(before, name, earlier[i]);
                assert(earlier.contains(earlier[i]));
                let k = choose|k: int| 0 <= k < before.len() && before[k] == earlier[i];
                assert(summaries[k].id != summaries[summaries.len() - 1].id);
            }
            assert forall|i: int, j: int| 0 <= i < j < all.len() implies (#[trigger] all[i]).id < (
            #[trigger] all[j]).id by {
                if i < at && j == at {
                    assert(earlier[i].id != last.id);
                } else if i == at {
                    if at < j - 1 {
                        assert(earlier[at].id < earlier[j - 1].id);
                    }
                } else if j < at {
                    assert(earlier[i].id < earlier[j].id);
                } else if i < at {
                    assert(earlier[i].id < earlier[j - 1].id);
                } else {
                    assert(earlier[i - 1].id < earlier[j - 1].id);
                }
            }
        }
    }
}

proof fn going_up_is_unique(a: Seq<AgentConnectionSummary>, b: Seq<AgentConnectionSummary>)
    requires
        ids_go_up(a),
        ids_go_up(b),
        forall|summary: AgentConnectionSummary| #[trigger]
            a.contains(summary) <==> b.contains(summary),
    ensures
        a == b,
    decreases a.len(),
{
    if a.len() == 0 {
        if b.len() > 0 {
            assert(b.contains(b[0]));
            assert(a.contains(b[0]));
        }
        assert(a =~= b);
    } else {
        assert(a.contains(a.last()));
        let i = choose|i: int| 0 <= i < b.len() && b[i] == a.last();
        assert(b.contains(b.last()));
        assert(a.contains(b.last()));
        let j = choose|j: int| 0 <= j < a.len() && a[j] == b.last();
        assert(a.last() == b.last()) by {
            if i < b.len() - 1 {
                assert(b[i].id < b[b.len() - 1].id);
                if j < a.len() - 1 {
                    assert(a[j].id < a[a.len() - 1].id);
                }
            }
        }
        let shorter = a.drop_last();
        let other = b.drop_last();
        assert forall|summary: AgentConnectionSummary| #[trigger]
            shorter.contains(summary) <==> other.contains(summary) by {
            if shorter.contains(summary) {
                let k = choose|k: int| 0 <= k < shorter.len() && shorter[k] == summary;
                assert(a[k] == summary && a[k].id < a[a.len() - 1].id);
                assert(a.contains(summary));
                let m = choose|m: int| 0 <= m < b.len() && b[m] == summary;
                assert(other[m] == summary);
            }
            if other.contains(summary) {
                let k = choose|k: int| 0 <= k < other.len() && other[k] == summary;
                assert(b[k] == summary && b[k].id < b[b.len() - 1].id);
                assert(b.contains(summary));
                assert(a.contains(summary));
                let m = choose|m: int| 0 <= m < a.len() && a[m] == summary;
                assert(shorter[m] == summary);
            }
        }
        going_up_is_unique(shorter, other);
        assert(a =~= shorter.push(a.last()));
        assert(b =~= other.push(b.last()));
    }
}

proof fn with_id_is_among_them(summaries: Seq<AgentConnectionSummary>, id: u128)
    ensures
        match with_id(summaries, id) {
            Some(found) => found.id == id && summaries.contains(found),
            None => forall|i: int| 0 <= i < summaries.len() ==> (#[trigger] summaries[i]).id != id,
        },
    decreases summaries.len(),
{
    if summaries.len() > 0 {
        if summaries[0].id == id {
            assert(summaries.contains(summaries[0]));
        } else {
            let rest = summaries.drop_first();
            with_id_is_among_them(rest, id);
            match with_id(rest, id) {
                Some(found) => {
                    let i = choose|i: int| 0 <= i < rest.len() && rest[i] == found;
                    assert(summaries[i + 1] == found);
                },
                None => {
                    assert forall|i: int| 0 <= i < summaries.len() implies (
                    #[trigger] summaries[i]).id != id by {
                        if i > 0 {
                            assert(summaries[i] == rest[i - 1]);
                        }
                    }
                },
            }
        }
    }
}

/// What a selector selects does not depend on the order in which the connections are listed.
pub proof fn resolution_ignores_the_order(
    summaries: Seq<AgentConnectionSummary>,
    other: Seq<AgentConnectionSummary>,
    selector: ConnectionSelector,
    current_connection_id: u128,
    r: Result<AgentConnectionSummary, CliConnectionResolutionError>,
)
    requires
        ids_differ(summaries),
        summaries.to_multiset() == other.to_multiset(),
    ensures
        resolves(summaries, selector, current_connection_id, r) == resolves(
            other,
            selector,
            current_connection_id,
            r,
        ),
{
    reordered_have_the_same(summaries, other);
    match selector {
        ConnectionSelector::Name(name) => {
            named_go_up(summaries, name@);
            named_go_up(other, name@);
            assert forall|summary: AgentConnectionSummary| #[trigger]
                named(summaries, name@).contains(summary) <==> named(other, name@).contains(
                    summary,
                ) by {
                named_are_the_bearers(summaries, name@, summary);
                named_are_the_bearers(other, name@, summary);
            }
            going_up_is_unique(named(summaries, name@), named(other, name@));
        },
        _ => {
            let id = match selector {
                ConnectionSelector::Id(id) => id,
                _ => current_connection_id,
            };
            with_id_is_among_them(summaries, id);
            with_id_is_among_them(other, id);
            match with_id(summaries, id) {
                Some(found) => {
                    assert(other.contains(found));
                    let i = choose|i: int| 0 <= i < other.len() && other[i] == found;
                    assert(other[i].id == id);
                    let again = with_id(other, id)->0;
                    let j = choose|j: int| 0 <= j < other.len() && other[j] == again;
                    if i < j {
                        assert(other[i].id != other[j].id);
                    } else if j < i {
                        assert(other[j].id != other[i].id);
                    }
                },
                None => {
                    if with_id(other, id) is Some {
                        let found = with_id(other, id)->0;
                        assert(summaries.contains(found));
                        let i = choose|i: int| 0 <= i < summaries.len() && summaries[i] == found;
                        assert(summaries[i].id != id);
                    }
                },
            }
        },
    }
}

proof fn reordered_have_the_same(
    summaries: Seq<AgentConnectionSummary>,
    other: Seq<AgentConnectionSummary>,
)
    requires
        ids_differ(summaries),
        summaries.to_multiset() == other.to_multiset(),
    ensures
        ids_differ(other),
        forall|summary: AgentConnectionSummary| #[trigger]
            summaries.contains(summary) <==> other.contains(summary),
{
    assert forall|summary: AgentConnectionSummary| #[trigger]
        summaries.contains(summary) <==> other.contains(summary) by {
        vstd::seq_lib::to_multiset_contains(summaries, summary);
        vstd::seq_lib::to_multiset_contains(other, summary);
    }
    assert(summaries.no_duplicates()) by {
        assert forall|i: int, j: int|
            0 <= i < summaries.len() && 0 <= j < summaries.len() && i != j implies summaries[i]
            != summaries[j] by {
            if i < j {
                assert(summaries[i].id != summaries[j].id);
            } else {
                assert(summaries[j].id != summaries[i].id);
            }
        }
    }
    summaries.lemma_multiset_has_no_duplicates();
    other.lemma_multiset_has_no_duplicates_conv();
    assert forall|i: int, j: int| 0 <= i < j < other.len() implies (#[trigger] other[i]).id != (
    #[trigger] other[j]).id by {
        assert(other.contains(other[i]));
        assert(other.contains(other[j]));
        assert(summaries.contains(other[i]));
        assert(summaries.contains(other[j]));
        let k = choose|k: int| 0 <= k < summaries.len() && summaries[k] == other[i];
        let m = choose|m: int| 0 <= m < summaries.len() && summaries[m] == other[j];
        if k < m {
            assert(summaries[k].id != summaries[m].id);
        } else if m < k {
            assert(summaries[m].id != summaries[k].id);
        }
    }
}

/// With different ids, the summaries listed for a name are exactly its bearers, and their ids go
/// up.
pub proof fn candidates_are_the_bearers(
    summaries: Seq<AgentConnectionSummary>,
    name: Seq<char>,
    summary: AgentConnectionSummary,
)
    requires
        ids_differ(summaries),
    ensures
        ids_go_up(named(summaries, name)),
        named(summaries, name).contains(summary) <==> summaries.contains(summary)
            && summary.name@ == name,
{
    named_go_up(summaries, name);
    named_are_the_bearers(summaries, name, summary);
}

/// What a selector selects bears what the selector names: an id selects a connection with
/// that id; a name selects a connection with that name, and only where no other bears it;
/// and the current connection is that of the session. Nothing is selected only where
/// nothing bears it, and of a name that several bear all bearers are listed.
pub proof fn selectors_select_what_they_name(
    summaries: Seq<AgentConnectionSummary>,
    selector: ConnectionSelector,
    current: u128,
    r: Result<AgentConnectionSummary, CliConnectionResolutionError>,
)
    requires
        resolves(summaries, selector, current, r),
    ensures
        match selector {
            ConnectionSelector::Name(name) => match r {
                Ok(found) => {
                    &&& summaries.contains(found) && found.name@ == name@
                    &&& forall|i: int|
                        0 <= i < summaries.len() && (#[trigger] summaries[i]).name@ == name@
                            ==> summaries[i] == found
                },
                Err(CliConnectionResolutionError::NoMatch) => forall|i: int|
                    0 <= i < summaries.len() ==> (#[trigger] summaries[i]).name@ != name@,
                Err(CliConnectionResolutionError::Ambiguous { candidates }) => {
                    &&& candidates@.len() >= 2
                    &&& forall|i: int|
                        0 <= i < candidates@.len() ==> summaries.contains(
                            #[trigger] candidates@[i],
                        ) && candidates@[i].name@ == name@
                    &&& forall|i: int|
                        0 <= i < summaries.len() && (#[trigger] summaries[i]).name@ == name@
                            ==> candidates@.contains(summaries[i])
                },
            },
            _ => {
                let id = match selector {
                    ConnectionSelector::Id(id) => id,
                    _ => current,
                };
                match r {
                    Ok(found) => summaries.contains(found) && found.id == id,
                    Err(CliConnectionResolutionError::NoMatch) => forall|i: int|
                        0 <= i < summaries.len() ==> (#[trigger] summaries[i]).id != id,
                    Err(CliConnectionResolutionError::Ambiguous { .. }) => false,
                }
            },
        },
{
    match selector {
        ConnectionSelector::Name(name) => {
            let found = named(summaries, name@);
            assert forall|summary: AgentConnectionSummary| #[trigger]
                found.contains(summary) <==> summaries.contains(summary) && summary.name@
                    == name@ by {
                named_are_the_bearers(summaries, name@, summary);
            }
            assert forall|i: int| 0 <= i < found.len() implies summaries.contains(
                #[trigger] found[i],
            ) && found[i].name@ == name@ by {
                assert(found.contains(found[i]));
            }
            assert forall|i: int|
                0 <= i < summaries.len() && (#[trigger] summaries[i]).name@
                    == name@ implies found.contains(summaries[i]) by {
                assert(summaries.contains(summaries[i]));
            }
        },
        ConnectionSelector::Id(id) => {
            with_id_is_among_them(summaries, id);
        },
        ConnectionSelector::Current => {
            with_id_is_among_them(summaries, current);
        },
    }
}

/// What an agent sees of a connection is the connection's own, and the same for two
/// connections that differ only in what no agent sees.
pub proof fn summaries_are_of_the_profile(profile: ConnectionProfile)
    ensures
        summary_of(profile).id == profile.id,
        summary_of(profile).name == profile.name,
        summary_of(profile).engine == profile.engine,
        summary_of(profile).database == profile.database,
        summary_of(profile).environment == profile.env,
        summary_of(profile).readonly == profile.readonly_default,
        summary_of(profile).allow_writes == profile.allow_writes,
{
}

/// A selector of the older form selects the first profile whose id, written out, or whose
/// name it is, and nothing only where it is neither of any.
pub proof fn older_selectors_select_the_first(profiles: Seq<ConnectionProfile>, selector: Seq<char>)
    ensures
        match first_answering(profiles, selector) {
            None => forall|k: int|
                0 <= k < profiles.len() ==> (#[trigger] profiles[k]).name@ != selector && hyphenated(
                    profiles[k].id,
                ) != selector,
            Some(found) => exists|k: int|
                0 <= k < profiles.len() && #[trigger] profiles[k] == found && (found.name@
                    == selector || hyphenated(found.id) == selector) && forall|j: int|
                    0 <= j < k ==> (#[trigger] profiles[j]).name@ != selector && hyphenated(
                        profiles[j].id,
                    ) != selector,
        },
    decreases profiles.len(),
{
    if profiles.len() > 0 {
        let rest = profiles.drop_first();
        older_selectors_select_the_first(rest, selector);
        if answers_to(profiles[0], selector) {
            assert(profiles[0] == first_answering(profiles, selector)->0);
        } else {
            match first_answering(rest, selector) {
                None => {
                    assert forall|k: int| 0 <= k < profiles.len() implies (
                    #[trigger] profiles[k]).name@ != selector && hyphenated(profiles[k].id)
                        != selector by {
                        if k > 0 {
                            assert(rest[k - 1] == profiles[k]);
                        }
                    }
                },
                Some(found) => {
                    let k = choose|k: int|
                        0 <= k < rest.len() && #[trigger] rest[k] == found && (found.name@
                            == selector || hyphenated(found.id) == selector) && forall|j: int|
                            0 <= j < k ==> (#[trigger] rest[j]).name@ != selector && hyphenated(
                                rest[j].id,
                            ) != selector;
                    assert(profiles[k + 1] == found);
                    assert forall|j: int| 0 <= j < k + 1 implies (#[trigger] profiles[j]).name@
                        != selector && hyphenated(profiles[j].id) != selector by {
                        if j > 0 {
                            assert(rest[j - 1] == profiles[j]);
                        }
                    }
                },
            }
        }
    }
}

/// A Terminal session is answered only on the connection, at the revision and in the scope,
/// that it was opened on: with the summary of that connection, the list of just that one,
/// or what its selector selects among the profiles of the scope, where the current
/// connection is its own.
pub proof fn terminals_see_their_own_connection(
    authority: TerminalAuthority,
    pin: PinnedConnection,
    profile: ConnectionProfile,
    profiles: Vec<ConnectionProfile>,
    selector: ConnectionSelector,
)
    ensures
        ({
            let own = pin.scope.workspace_id == authority.workspace_id
                && pin.scope.account_scope.key()@ == authority.account_scope@ && pin.connection_id
                == authority.connection_id && pin.connection_revision
                == authority.connection_revision;
            &&& forall|r: AppResult<AgentConnectionSummary>| #[trigger]
                call_ensures(terminal_summary, (&authority, &pin, &profile), r) ==> (if own {
                    r == Ok::<_, AppError>(summary_of(profile))
                } else {
                    r matches Err(AppError::Blocked { .. })
                })
            &&& forall|r: AppResult<Vec<AgentConnectionSummary>>| #[trigger]
                call_ensures(list_terminal_summaries, (&authority, &pin, &profile), r) ==> (if own {
                    r is Ok && r->Ok_0@.len() == 1 && r->Ok_0@[0] == summary_of(profile)
                } else {
                    r matches Err(AppError::Blocked { .. })
                })
            &&& forall|
                r: AppResult<Result<AgentConnectionSummary, CliConnectionResolutionError>>,
            | #[trigger]
                call_ensures(
                    resolve_terminal_cli,
                    (&authority, &pin, &profiles, &selector),
                    r,
                ) ==> (if own {
                    r is Ok && resolves(
                        profiles@.map_values(|profile: ConnectionProfile| summary_of(profile)),
                        selector,
                        authority.connection_id,
                        r->Ok_0,
                    )
                } else {
                    r matches Err(AppError::Blocked { .. })
                })
        }),
{
}

/// What people are told where a selector selects nothing.
pub proof fn failed_selections_are_told(
    older: LegacyConnectionResolutionError,
    exact: CliConnectionResolutionError,
)
    ensures
        forall|r: String| #[trigger]
            call_ensures(LegacyConnectionResolutionError::message, (&older,), r) ==> r@
                == match older {
                LegacyConnectionResolutionError::NoConnections => "no connections are available"@,
                LegacyConnectionResolutionError::NoMatch { selector } =>
                    "no connection matches selector '"@ + selector@ + "'"@,
            },
        forall|r: &'static str| #[trigger]
            call_ensures(CliConnectionResolutionError::message, (&exact,), r) ==> r@ == match exact {
                CliConnectionResolutionError::NoMatch => "no connection matches the exact selector"@,
                CliConnectionResolutionError::Ambiguous { .. } =>
                    "the exact connection name matches more than one connection"@,
            },
{
}

} // verus!
