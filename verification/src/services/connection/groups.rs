//! Schema groups: connections that are shown as one. All of a group have the same engine.
use vstd::pervasive::unreached;
use vstd::prelude::*;
use vstd::string::*;

use crate::error::{AppError, AppResult};
use crate::model::{ConnectionProfile, WorkspaceConnectionAccess};
use crate::services::effects::{ask, done, Effect, Step, Turn};
use crate::text::{
    eq_ignore_ascii_case, same_ignoring_ascii_case, trim, trimmed, trimming_is_idempotent, Text,
};

verus! {

/// Whether `name` is `given` without the white space around it, and `given` is more than
/// white space; or there is no name, because there was none or it was blank.
pub open spec fn is_normal_form(name: Option<Seq<char>>, given: Option<String>) -> bool {
    name == match given {
        Some(given) => if trimmed(given@).len() == 0 {
            None
        } else {
            Some(trimmed(given@))
        },
        None => None,
    }
}

/// The text of a name.
pub open spec fn text_of(name: Option<String>) -> Option<Seq<char>> {
    match name {
        Some(name) => Some(name@),
        None => None,
    }
}

/// A group's name without the white space around it. A blank name is no name.
pub fn normalize_schema_group(schema_group: Option<String>) -> (r: Option<String>)
    ensures
        is_normal_form(text_of(r), schema_group),
{
    match schema_group {
        Some(value) => {
            let name = trim(value.as_str());
            if name.unicode_len() == 0 {
                None
            } else {
                Some(name.to_owned())
            }
        },
        None => None,
    }
}

/// Whether `other` is another connection of this profile's group, with another engine.
pub open spec fn clashes(profile: ConnectionProfile, other: ConnectionProfile) -> bool {
    &&& profile.schema_group is Some
    &&& other.id != profile.id
    &&& other.schema_group is Some
    &&& same_ignoring_ascii_case(trimmed(other.schema_group->0@), profile.schema_group->0@)
    &&& other.engine != profile.engine
}

/// The answer where the group holds another engine.
pub open spec fn mixed_group(profile: ConnectionProfile) -> AppError {
    AppError::Config(
        Text::WithText(
            "schema group '",
            profile.schema_group->0,
            "' already contains a different database engine",
        ),
    )
}

/// Whether one of `connections` clashes with the profile.
pub open spec fn group_is_mixed(
    profile: ConnectionProfile,
    connections: Seq<ConnectionProfile>,
) -> bool {
    exists|i: int| 0 <= i < connections.len() && clashes(profile, #[trigger] connections[i])
}

/// Refuses a profile whose group holds a connection with another engine. Names of groups
/// are compared without regard to case.
pub fn validate_schema_group_engine(
    profile: &ConnectionProfile,
    connections: &Vec<ConnectionProfile>,
) -> (r: AppResult<()>)
    ensures
        group_is_mixed(*profile, connections@) ==> r == Err::<(), AppError>(mixed_group(*profile)),
        !group_is_mixed(*profile, connections@) ==> r is Ok,
{
    match &profile.schema_group {
        None => Ok(()),
        Some(group) => {
            let mut i: usize = 0;
            while i < connections.len()
                invariant
                    i <= connections@.len(),
                    profile.schema_group == Some(*group),
                    forall|j: int| 0 <= j < i ==> !clashes(*profile, #[trigger] connections@[j]),
                decreases connections@.len() - i,
            {
                let candidate = &connections[i];
                let same_group = match &candidate.schema_group {
                    Some(name) => eq_ignore_ascii_case(trim(name.as_str()), group.as_str()),
                    None => false,
                };
                if candidate.id != profile.id && same_group && candidate.engine != profile.engine {
                    assert(clashes(*profile, connections@[i as int]));
                    return Err(
                        AppError::Config(
                            Text::WithText(
                                "schema group '",
                                group.clone(),
                                "' already contains a different database engine",
                            ),
                        ),
                    );
                }
                i = i + 1;
            }
            Ok(())
        },
    }
}

/// The ids without repetition, in the order in which they first occur.
pub open spec fn distinct(ids: Seq<u128>) -> Seq<u128>
    decreases ids.len(),
{
    if ids.len() == 0 {
        Seq::empty()
    } else {
        let earlier = distinct(ids.drop_last());
        if earlier.contains(ids.last()) {
            earlier
        } else {
            earlier.push(ids.last())
        }
    }
}

/// [`distinct`] keeps every id and repeats none.
pub proof fn distinct_keeps_each_id_once(ids: Seq<u128>)
    ensures
        distinct(ids).no_duplicates(),
        forall|id: u128| distinct(ids).contains(id) <==> ids.contains(id),
    decreases ids.len(),
{
    if ids.len() > 0 {
        let rest = ids.drop_last();
        let earlier = distinct(rest);
        distinct_keeps_each_id_once(rest);
        assert forall|id: u128| distinct(ids).contains(id) <==> ids.contains(id) by {
            if ids.contains(id) && id != ids.last() {
                let at = choose|i: int| 0 <= i < ids.len() && ids[i] == id;
                assert(rest[at] == id);
                assert(rest.contains(id));
                assert(earlier.contains(id));
            }
            if rest.contains(id) {
                let at = choose|i: int| 0 <= i < rest.len() && rest[i] == id;
                assert(ids[at] == id);
            }
            if earlier.contains(id) {
                let at = choose|i: int| 0 <= i < earlier.len() && earlier[i] == id;
                assert(distinct(ids)[at] == id);
            }
            assert(ids.last() == ids[ids.len() - 1]);
            if !earlier.contains(ids.last()) {
                assert(distinct(ids)[earlier.len() as int] == ids.last());
            }
        }
    }
}

/// Whether an id is in the list.
fn holds_id(ids: &Vec<u128>, id: u128) -> (r: bool)
    ensures
        r == ids@.contains(id),
{
    let mut i: usize = 0;
    while i < ids.len()
        invariant
            i <= ids@.len(),
            forall|j: int| 0 <= j < i ==> ids@[j] != id,
        decreases ids@.len() - i,
    {
        if ids[i] == id {
            return true;
        }
        i = i + 1;
    }
    false
}

/// Computes [`distinct`].
pub fn distinct_ids(ids: &Vec<u128>) -> (r: Vec<u128>)
    ensures
        r@ == distinct(ids@),
{
    let mut unique: Vec<u128> = Vec::new();
    let mut i: usize = 0;
    while i < ids.len()
        invariant
            i <= ids@.len(),
            unique@ == distinct(ids@.subrange(0, i as int)),
        decreases ids@.len() - i,
    {
        assert(ids@.subrange(0, i + 1).drop_last() =~= ids@.subrange(0, i as int));
        if !holds_id(&unique, ids[i]) {
            unique.push(ids[i]);
        }
        i = i + 1;
    }
    assert(ids@.subrange(0, ids@.len() as int) =~= ids@);
    unique
}

/// Whether `i` is the place of the first profile with this id.
pub open spec fn is_first(connections: Seq<ConnectionProfile>, id: u128, i: int) -> bool {
    &&& 0 <= i < connections.len()
    &&& connections[i].id == id
    &&& forall|j: int| 0 <= j < i ==> (#[trigger] connections[j]).id != id
}

/// The place of the first profile with this id.
pub open spec fn place_of(connections: Seq<ConnectionProfile>, id: u128) -> Option<int> {
    if exists|i: int| is_first(connections, id, i) {
        Some(choose|i: int| is_first(connections, id, i))
    } else {
        None
    }
}

/// There is one first place at most, so [`place_of`] gives it.
pub proof fn first_is_unique(connections: Seq<ConnectionProfile>, id: u128, i: int)
    requires
        is_first(connections, id, i),
    ensures
        place_of(connections, id) == Some(i),
{
    let chosen = choose|k: int| is_first(connections, id, k);
    assert(is_first(connections, id, chosen));
    if chosen < i {
        assert(connections[chosen].id != id);
    }
    if i < chosen {
        assert(connections[i].id != id);
    }
}

/// Computes [`place_of`].
pub fn find_place(connections: &Vec<ConnectionProfile>, id: u128) -> (r: Option<usize>)
    ensures
        match r {
            Some(i) => is_first(connections@, id, i as int) && place_of(connections@, id) == Some(
                i as int,
            ),
            None => place_of(connections@, id) is None,
        },
{
    let mut i: usize = 0;
    while i < connections.len()
        invariant
            i <= connections@.len(),
            forall|j: int| 0 <= j < i ==> (#[trigger] connections@[j]).id != id,
        decreases connections@.len() - i,
    {
        if connections[i].id == id {
            proof {
                first_is_unique(connections@, id, i as int);
            }
            return Some(i);
        }
        i = i + 1;
    }
    None
}

/// The profile in this group.
pub open spec fn in_group(profile: ConnectionProfile, group: Option<String>) -> ConnectionProfile {
    ConnectionProfile { schema_group: group, ..profile }
}

/// The connections after those with one of `ids` were put in the group.
pub open spec fn regrouped(
    connections: Seq<ConnectionProfile>,
    ids: Seq<u128>,
    group: Option<String>,
) -> Seq<ConnectionProfile> {
    Seq::new(
        connections.len(),
        |i: int|
            if ids.contains(connections[i].id) && is_first(connections, connections[i].id, i) {
                in_group(connections[i], group)
            } else {
                connections[i]
            },
    )
}

/// Why these connections cannot all be put in one group: the first of them that is not
/// there, or is not local.
pub open spec fn refusal(connections: Seq<ConnectionProfile>, ids: Seq<u128>) -> Option<AppError>
    decreases ids.len(),
{
    if ids.len() == 0 {
        None
    } else {
        match place_of(connections, ids[0]) {
            None => Some(AppError::NotFound(Text::WithId("connection ", ids[0], ""))),
            Some(i) => if connections[i].workspace_access != WorkspaceConnectionAccess::Local {
                Some(
                    AppError::Blocked {
                        reason: Text::Plain(
                            "shared template metadata must be changed through the workspace service",
                        ),
                    },
                )
            } else {
                refusal(connections, ids.drop_first())
            },
        }
    }
}

/// The answer for the first of `ids` whose group has come to hold another engine.
pub open spec fn first_mix(connections: Seq<ConnectionProfile>, ids: Seq<u128>) -> Option<AppError>
    decreases ids.len(),
{
    if ids.len() == 0 {
        None
    } else {
        let profile = connections[place_of(connections, ids[0])->0];
        if group_is_mixed(profile, connections) {
            Some(mixed_group(profile))
        } else {
            first_mix(connections, ids.drop_first())
        }
    }
}

/// Why these connections cannot be put in this group.
pub open spec fn regrouping_error(
    connections: Seq<ConnectionProfile>,
    ids: Seq<u128>,
    group: Option<String>,
) -> Option<AppError> {
    match refusal(connections, ids) {
        Some(error) => Some(error),
        None => first_mix(regrouped(connections, ids, group), ids),
    }
}

/// Whether `updated` are the connections `ids`, in that order, now in the group.
pub open spec fn are_updated(
    updated: Seq<ConnectionProfile>,
    connections: Seq<ConnectionProfile>,
    ids: Seq<u128>,
    group: Option<String>,
) -> bool {
    &&& updated.len() == ids.len()
    &&& forall|k: int|
        #![trigger updated[k]]
        0 <= k < ids.len() ==> place_of(connections, ids[k]) is Some && updated[k].same(
            in_group(connections[place_of(connections, ids[k])->0], group),
        )
}

proof fn regrouping_keeps_places(
    connections: Seq<ConnectionProfile>,
    ids: Seq<u128>,
    group: Option<String>,
    id: u128,
)
    ensures
        place_of(regrouped(connections, ids, group), id) == place_of(connections, id),
        forall|i: int|
            is_first(regrouped(connections, ids, group), id, i) == is_first(connections, id, i),
{
    let after = regrouped(connections, ids, group);
    assert forall|i: int| is_first(after, id, i) == is_first(connections, id, i) by {
        if is_first(connections, id, i) {
            assert forall|j: int| 0 <= j < i implies (#[trigger] after[j]).id != id by {
                assert(connections[j].id != id);
            }
        }
        if is_first(after, id, i) {
            assert forall|j: int| 0 <= j < i implies (#[trigger] connections[j]).id != id by {
                assert(after[j].id != id);
            }
        }
    }
    if exists|i: int| is_first(connections, id, i) {
        let i = choose|i: int| is_first(connections, id, i);
        first_is_unique(connections, id, i);
        first_is_unique(after, id, i);
    } else {
        assert forall|i: int| !is_first(after, id, i) by {
            assert(!is_first(connections, id, i));
        }
    }
}

proof fn regrouping_one_more(
    connections: Seq<ConnectionProfile>,
    ids: Seq<u128>,
    group: Option<String>,
    k: int,
    at: int,
)
    requires
        0 <= k < ids.len(),
        is_first(connections, ids[k], at),
    ensures
        regrouped(connections, ids.subrange(0, k), group).update(
            at,
            in_group(regrouped(connections, ids.subrange(0, k), group)[at], group),
        ) == regrouped(connections, ids.subrange(0, k + 1), group),
{
    let before = ids.subrange(0, k);
    let more = ids.subrange(0, k + 1);
    let left = regrouped(connections, before, group).update(
        at,
        in_group(regrouped(connections, before, group)[at], group),
    );
    let right = regrouped(connections, more, group);
    assert(more[k] == ids[k]);
    assert forall|i: int| 0 <= i < connections.len() implies left[i] == right[i] by {
        let id = connections[i].id;
        if before.contains(id) {
            let j = choose|j: int| 0 <= j < before.len() && before[j] == id;
            assert(more[j] == id);
        }
        if more.contains(id) && id != ids[k] {
            let j = choose|j: int| 0 <= j < more.len() && more[j] == id;
            assert(before[j] == id);
        }
        if id == ids[k] && is_first(connections, id, i) {
            first_is_unique(connections, id, i);
            first_is_unique(connections, id, at);
            assert(i == at);
        }
    }
    assert(left =~= right);
}

/// Puts connections in a group, and returns them as they are then.
pub fn regroup(
    connections: Vec<ConnectionProfile>,
    ids: &Vec<u128>,
    group: &Option<String>,
) -> (r: AppResult<Vec<ConnectionProfile>>)
    ensures
        match regrouping_error(connections@, ids@, *group) {
            Some(error) => r == AppResult::<Vec<ConnectionProfile>>::Err(error),
            None => r is Ok && are_updated(r->Ok_0@, connections@, ids@, *group),
        },
{
    let mut now = connections;
    let mut k: usize = 0;
    proof {
        assert(ids@.subrange(0, ids@.len() as int) =~= ids@);
        assert(now@ =~= regrouped(connections@, ids@.subrange(0, 0), *group));
    }
    while k < ids.len()
        invariant
            k <= ids@.len(),
            now@ == regrouped(connections@, ids@.subrange(0, k as int), *group),
            refusal(connections@, ids@) == refusal(
                connections@,
                ids@.subrange(k as int, ids@.len() as int),
            ),
            forall|j: int|
                0 <= j < k ==> (place_of(connections@, #[trigger] ids@[j]) is Some),
        decreases ids@.len() - k,
    {
        let id: u128 = ids[k];
        proof {
            regrouping_keeps_places(connections@, ids@.subrange(0, k as int), *group, id);
            assert(ids@.subrange(k as int, ids@.len() as int).drop_first() =~= ids@.subrange(
                k + 1,
                ids@.len() as int,
            ));
        }
        match find_place(&now, id) {
            None => {
                return Err(AppError::NotFound(Text::WithId("connection ", id, "")));
            },
            Some(at) => {
                proof {
                    assert(is_first(connections@, id, at as int));
                    first_is_unique(connections@, id, at as int);
                }
                if now[at].workspace_access != WorkspaceConnectionAccess::Local {
                    return Err(
                        AppError::Blocked {
                            reason: Text::Plain(
                                "shared template metadata must be changed through the workspace service",
                            ),
                        },
                    );
                }
                proof {
                    regrouping_one_more(connections@, ids@, *group, k as int, at as int);
                }
                now[at].schema_group = group.clone();
            },
        }
        k = k + 1;
    }
    assert(ids@.subrange(ids@.len() as int, ids@.len() as int) =~= Seq::empty());
    let mut updated: Vec<ConnectionProfile> = Vec::new();
    let mut k: usize = 0;
    while k < ids.len()
        invariant
            k <= ids@.len(),
            refusal(connections@, ids@) is None,
            now@ == regrouped(connections@, ids@, *group),
            updated@.len() == k,
            forall|j: int|
                0 <= j < ids@.len() ==> (place_of(connections@, #[trigger] ids@[j]) is Some),
            forall|j: int|
                #![trigger updated@[j]]
                0 <= j < k ==> updated@[j].same(
                    in_group(connections@[place_of(connections@, ids@[j])->0], *group),
                ),
            first_mix(now@, ids@) == first_mix(now@, ids@.subrange(k as int, ids@.len() as int)),
        decreases ids@.len() - k,
    {
        let id: u128 = ids[k];
        proof {
            assert(id == ids@[k as int]);
            regrouping_keeps_places(connections@, ids@, *group, id);
            assert(ids@.subrange(k as int, ids@.len() as int).drop_first() =~= ids@.subrange(
                k + 1,
                ids@.len() as int,
            ));
        }
        match find_place(&now, id) {
            None => {
                return Err(AppError::NotFound(Text::WithId("connection ", id, "")));
            },
            Some(at) => {
                proof {
                    assert(is_first(connections@, id, at as int));
                    assert(ids@.contains(connections@[at as int].id));
                    assert(now@[at as int] == in_group(connections@[at as int], *group));
                }
                match validate_schema_group_engine(&now[at], &now) {
                    Err(error) => {
                        return Err(error);
                    },
                    Ok(_) => {},
                }
                updated.push(now[at].duplicate());
            },
        }
        k = k + 1;
    }
    assert(ids@.subrange(ids@.len() as int, ids@.len() as int) =~= Seq::empty());
    Ok(updated)
}

/// Where putting connections in a group stands.
#[derive(PartialEq, Eq)]
pub enum Regrouping {
    Listed { ids: Vec<u128>, group: Option<String> },
    Stored { ids: Vec<u128>, updated: Vec<ConnectionProfile> },
}

/// What putting connections in a group asks of the outside world.
#[derive(PartialEq, Eq)]
pub enum RegroupingRequest {
    /// List the connections, and let nothing else change them until the end.
    ListConnections,
    /// Store the group of these connections.
    StoreGroup { ids: Vec<u128>, group: Option<String> },
}

/// What the outside world answers.
#[derive(PartialEq, Eq)]
pub enum RegroupingReply {
    Listed(Result<Vec<ConnectionProfile>, AppError>),
    Stored(Result<(), AppError>),
}

/// How putting connections in a group ends.
pub type RegroupingEnd = Result<Vec<ConnectionProfile>, AppError>;

/// A step of putting connections in a group.
pub type RegroupingStep = Step<Regrouping, RegroupingRequest, RegroupingEnd>;

/// What follows an answer while connections are put in a group.
pub type RegroupingTurn = Turn<Regrouping, RegroupingRequest, RegroupingEnd>;

/// One effect for each of the connections, whose open pools are let go.
pub open spec fn retired(ids: Seq<u128>) -> Seq<Effect> {
    Seq::new(ids.len(), |i: int| Effect::RetireConnection { connection_id: ids[i] })
}

fn retire(ids: &Vec<u128>) -> (r: Vec<Effect>)
    ensures
        r@ == retired(ids@),
{
    let mut effects: Vec<Effect> = Vec::new();
    let mut i: usize = 0;
    while i < ids.len()
        invariant
            i <= ids@.len(),
            effects@ == retired(ids@.subrange(0, i as int)),
        decreases ids@.len() - i,
    {
        effects.push(Effect::RetireConnection { connection_id: ids[i] });
        i = i + 1;
        assert(effects@ =~= retired(ids@.subrange(0, i as int)));
    }
    assert(ids@.subrange(0, ids@.len() as int) =~= ids@);
    effects
}

impl Regrouping {
    /// Whether `reply` answers what is awaited.
    pub open spec fn awaits(self, reply: RegroupingReply) -> bool {
        match self {
            Regrouping::Listed { .. } => reply is Listed,
            Regrouping::Stored { .. } => reply is Stored,
        }
    }

    /// Whether `step` is what follows `reply`. Nothing is stored unless every connection
    /// can join the group.
    pub open spec fn follows(self, reply: RegroupingReply, step: RegroupingStep) -> bool {
        match self {
            Regrouping::Listed { ids, group } => {
                &&& step.effects@ == Seq::<Effect>::empty()
                &&& match reply->Listed_0 {
                    Err(error) => step.turn == RegroupingTurn::Done(Err(error)),
                    Ok(connections) => match regrouping_error(connections@, ids@, group) {
                        Some(error) => step.turn == RegroupingTurn::Done(Err(error)),
                        None => {
                            &&& step.turn matches Turn::Ask { state, request }
                            &&& request matches RegroupingRequest::StoreGroup {
                                ids: named,
                                group: given,
                            }
                            &&& named@ == ids@ && given == group
                            &&& state matches Regrouping::Stored { ids: stored, updated }
                            &&& stored == ids
                            &&& are_updated(updated@, connections@, ids@, group)
                        },
                    },
                }
            },
            Regrouping::Stored { ids, updated } => match reply->Stored_0 {
                Err(error) => step.says((Seq::empty(), Turn::Done(Err(error)))),
                Ok(_) => step.says((retired(ids@), Turn::Done(Ok(updated)))),
            },
        }
    }

    /// Begins to put connections in a group. Without connections there is nothing to do.
    pub fn start(ids: Vec<u128>, schema_group: Option<String>) -> (r: RegroupingStep)
        ensures
            r.effects@ == Seq::<Effect>::empty(),
            distinct(ids@).len() == 0 ==> (r.turn matches Turn::Done(Ok(updated)) && updated@.len()
                == 0),
            distinct(ids@).len() > 0 ==> {
                &&& r.turn matches Turn::Ask { state, request }
                &&& request is ListConnections
                &&& state matches Regrouping::Listed { ids: kept, group }
                &&& kept@ == distinct(ids@)
                &&& is_normal_form(text_of(group), schema_group)
            },
    {
        let unique = distinct_ids(&ids);
        if unique.len() == 0 {
            return done(Ok(Vec::new()));
        }
        let group = normalize_schema_group(schema_group);
        ask(Regrouping::Listed { ids: unique, group }, RegroupingRequest::ListConnections)
    }

    /// Takes the answer to the last question.
    pub fn advance(self, reply: RegroupingReply) -> (r: RegroupingStep)
        requires
            self.awaits(reply),
        ensures
            self.follows(reply, r),
    {
        match (self, reply) {
            (Regrouping::Listed { ids, group }, RegroupingReply::Listed(reply)) => match reply {
                Err(error) => done(Err(error)),
                Ok(connections) => match regroup(connections, &ids, &group) {
                    Err(error) => done(Err(error)),
                    Ok(updated) => {
                        let named = ids.clone();
                        assert(named@ =~= ids@);
                        ask(
                            Regrouping::Stored { ids, updated },
                            RegroupingRequest::StoreGroup { ids: named, group },
                        )
                    },
                },
            },
            (Regrouping::Stored { ids, updated }, RegroupingReply::Stored(reply)) => match reply {
                Err(error) => done(Err(error)),
                Ok(_) => Step { effects: retire(&ids), turn: Turn::Done(Ok(updated)) },
            },
            _ => unreached(),
        }
    }
}

/// A name that has been normalized stays as it is.
pub proof fn normal_names_stay(name: Option<String>, given: Option<String>)
    requires
        is_normal_form(text_of(name), given),
    ensures
        is_normal_form(text_of(name), name),
{
    if given is Some {
        trimming_is_idempotent(given->0@);
    }
}

/// After connections were put in a group, no other connection of that group has another
/// engine than theirs.
pub proof fn a_group_has_one_engine(
    connections: Seq<ConnectionProfile>,
    ids: Seq<u128>,
    group: Option<String>,
    k: int,
)
    requires
        regrouping_error(connections, ids, group) is None,
        0 <= k < ids.len(),
    ensures
        place_of(connections, ids[k]) is Some,
        !group_is_mixed(
            regrouped(connections, ids, group)[place_of(connections, ids[k])->0],
            regrouped(connections, ids, group),
        ),
{
    no_refusal(connections, ids, k);
    no_mix(regrouped(connections, ids, group), ids, k);
    regrouping_keeps_places(connections, ids, group, ids[k]);
}

proof fn no_refusal(connections: Seq<ConnectionProfile>, ids: Seq<u128>, k: int)
    requires
        refusal(connections, ids) is None,
        0 <= k < ids.len(),
    ensures
        place_of(connections, ids[k]) is Some,
    decreases ids.len(),
{
    if k > 0 {
        no_refusal(connections, ids.drop_first(), k - 1);
        assert(ids.drop_first()[k - 1] == ids[k]);
    }
}

proof fn no_mix(connections: Seq<ConnectionProfile>, ids: Seq<u128>, k: int)
    requires
        first_mix(connections, ids) is None,
        0 <= k < ids.len(),
    ensures
        !group_is_mixed(connections[place_of(connections, ids[k])->0], connections),
    decreases ids.len(),
{
    if k > 0 {
        no_mix(connections, ids.drop_first(), k - 1);
        assert(ids.drop_first()[k - 1] == ids[k]);
    }
}

} // verus!
