use vstd::prelude::*;

use crate::access::{grants, lemma_grants_meaning, sole_login, PrivilegeRow};
use crate::pattern::regex_finds;
use crate::models::{UpdateRequest, User};
use crate::record::{kind_named, unicode_uppercase};
use crate::record::{DnsRecordInfo, RecordContent};
use crate::session::{answers, changes_dns, transition, waits_for, Action, Event, Operation, Phase, Session};

verus! {

/// How far a session has come: each step moves it strictly further.
pub open spec fn phase_rank(p: Phase) -> int {
    match p {
        Phase::AwaitUsers => 0,
        Phase::AwaitPrivileges { .. } => 1,
        Phase::AwaitZones { .. } => 2,
        Phase::AwaitZoneDetails { .. } => 3,
        Phase::AwaitRecords { .. } => 4,
        Phase::AwaitChange => 5,
        Phase::Done => 6,
    }
}

/// `states[i]` takes `events[i]`, becomes `states[i + 1]` and asks for `actions[i]`, for each `i`.
pub open spec fn is_run(events: Seq<Event>, states: Seq<Session>, actions: Seq<Action>) -> bool {
    &&& states.len() == events.len() + 1
    &&& actions.len() == events.len()
    &&& forall|i: int|
        #![trigger actions[i]]
        0 <= i < events.len() ==> transition(states[i], events[i], states[i + 1], actions[i])
}

/// The event lists users among which exactly one enabled user has the request's name and key,
/// and that user's id is `id`.
pub open spec fn authenticates_as(e: Event, req: UpdateRequest, id: i32) -> bool {
    e matches Event::UsersLoaded(users) && exists|j: int|
        sole_login(users@, req.user@, req.key@, j) && #[trigger] users@[j].id == id
}

/// The event lists privileges that grant the change of the request's record on its zone.
pub open spec fn authorizes(e: Event, req: UpdateRequest) -> bool {
    e matches Event::PrivilegesLoaded(rows) && grants(rows@, req.zone@, req.rec@)
}

/// A step moves the session further, keeps its request and operation, and answers the client
/// exactly when it ends the session.
pub proof fn lemma_step_progress(pre: Session, e: Event, post: Session, act: Action)
    requires
        transition(pre, e, post, act),
    ensures
        phase_rank(post.spec_phase()) > phase_rank(pre.spec_phase()),
        post.spec_request() == pre.spec_request(),
        post.spec_op() == pre.spec_op(),
        act is Respond <==> post.spec_phase() is Done,
{
}

proof fn lemma_progress(events: Seq<Event>, states: Seq<Session>, actions: Seq<Action>, n: int)
    requires
        is_run(events, states, actions),
        states[0].spec_phase() is AwaitUsers,
        0 <= n <= events.len(),
    ensures
        states[n].spec_request() == states[0].spec_request(),
        states[n].spec_op() == states[0].spec_op(),
        phase_rank(states[n].spec_phase()) >= n,
    decreases n,
{
    if n > 0 {
        lemma_progress(events, states, actions, n - 1);
        assert(transition(states[n - 1], events[n - 1], states[n], actions[n - 1]));
        lemma_step_progress(states[n - 1], events[n - 1], states[n], actions[n - 1]);
    }
}

/// Where in a run a change can stand: a run goes through the users, the privileges, the zones
/// and the zone's details in that order, and its change is the fourth action for an addition
/// and the fifth (after the record listing) otherwise.
proof fn lemma_change_position(events: Seq<Event>, states: Seq<Session>, actions: Seq<Action>, k: int)
    requires
        is_run(events, states, actions),
        states[0].spec_phase() is AwaitUsers,
        0 <= k < actions.len(),
        changes_dns(actions[k]),
    ensures
        k == 3 || k == 4,
        k == 3 <==> states[0].spec_op() == Operation::Add,
        states[1].spec_phase() is AwaitPrivileges,
        states[2].spec_phase() is AwaitZones,
        states[3].spec_phase() is AwaitZoneDetails,
        k == 4 ==> states[4].spec_phase() is AwaitRecords,
{
    lemma_progress(events, states, actions, k);
    let op = states[0].spec_op();
    assert(transition(states[k], events[k], states[k + 1], actions[k]));
    assert(phase_rank(states[k].spec_phase()) == 3 || phase_rank(states[k].spec_phase()) == 4);
    assert(transition(states[0], events[0], states[1], actions[0]));
    assert(transition(states[1], events[1], states[2], actions[1]));
    assert(transition(states[2], events[2], states[3], actions[2]));
    lemma_progress(events, states, actions, 1);
    lemma_progress(events, states, actions, 2);
    lemma_progress(events, states, actions, 3);
    if k == 4 {
        assert(transition(states[3], events[3], states[4], actions[3]));
        assert(states[3].spec_op() == op);
    } else {
        assert(states[3].spec_op() == op);
    }
}

/// No DNS record is created, updated or deleted unless the users' answer came first and
/// named exactly one enabled user with the request's name and key, the privileges were then
/// loaded for that user's id on the request's zone, and they include one on that zone that
/// makes the user superuser there or whose pattern matches the record name.
pub proof fn lemma_change_is_authorized(
    events: Seq<Event>,
    states: Seq<Session>,
    actions: Seq<Action>,
    k: int,
)
    requires
        is_run(events, states, actions),
        states[0].spec_phase() is AwaitUsers,
        0 <= k < actions.len(),
        changes_dns(actions[k]),
    ensures
        k >= 3,
        actions[0] matches Action::LoadPrivileges { user_id, zone } && zone@
            == states[0].spec_request().zone@ && authenticates_as(
            events[0],
            states[0].spec_request(),
            user_id,
        ),
        authorizes(events[1], states[0].spec_request()),
{
    lemma_change_position(events, states, actions, k);
    let req = states[0].spec_request();
    assert(transition(states[0], events[0], states[1], actions[0]));
    assert(transition(states[1], events[1], states[2], actions[1]));
    lemma_progress(events, states, actions, 1);
    if let Event::UsersLoaded(users) = events[0] {
        let j = choose|j: int| sole_login(users@, req.user@, req.key@, j);
        assert(sole_login(users@, req.user@, req.key@, j) && users@[j].id == users@[j].id);
    }
}

/// A request is answered once: a session takes at most six answers from the outside, and the
/// only action of a run that answers the client is its last one.
pub proof fn lemma_single_answer(events: Seq<Event>, states: Seq<Session>, actions: Seq<Action>)
    requires
        is_run(events, states, actions),
        states[0].spec_phase() is AwaitUsers,
    ensures
        events.len() <= 6,
        forall|k: int| 0 <= k < actions.len() - 1 ==> !(#[trigger] actions[k] is Respond),
{
    lemma_progress(events, states, actions, events.len() as int);
    assert forall|k: int| 0 <= k < actions.len() - 1 implies !(#[trigger] actions[k] is Respond) by {
        assert(transition(states[k], events[k], states[k + 1], actions[k]));
        assert(transition(states[k + 1], events[k + 1], states[k + 2], actions[k + 1]));
        lemma_step_progress(states[k], events[k], states[k + 1], actions[k]);
    }
}

/// A request makes at most one DNS change, and it is the one its operation asks for: a
/// creation for an addition, an update for an update, a deletion for a deletion. A session
/// that adds a record never lists records.
pub proof fn lemma_one_change_of_its_kind(events: Seq<Event>, states: Seq<Session>, actions: Seq<Action>)
    requires
        is_run(events, states, actions),
        states[0].spec_phase() is AwaitUsers,
    ensures
        forall|k1: int, k2: int|
            0 <= k1 < actions.len() && 0 <= k2 < actions.len() && changes_dns(#[trigger] actions[k1])
                && changes_dns(#[trigger] actions[k2]) ==> k1 == k2,
        forall|k: int|
            0 <= k < actions.len() && changes_dns(#[trigger] actions[k]) ==> {
                &&& actions[k] is CreateRecord <==> states[0].spec_op() == Operation::Add
                &&& actions[k] is UpdateRecord <==> states[0].spec_op() == Operation::Update
                &&& actions[k] is DeleteRecord <==> states[0].spec_op() == Operation::Delete
            },
        states[0].spec_op() == Operation::Add ==> forall|k: int|
            0 <= k < actions.len() ==> !(#[trigger] actions[k] is ListRecords),
{
    assert forall|k1: int, k2: int|
        0 <= k1 < actions.len() && 0 <= k2 < actions.len() && changes_dns(#[trigger] actions[k1])
            && changes_dns(#[trigger] actions[k2]) implies k1 == k2 by {
        lemma_change_position(events, states, actions, k1);
        lemma_change_position(events, states, actions, k2);
    }
    assert forall|k: int| 0 <= k < actions.len() && changes_dns(#[trigger] actions[k]) implies {
        &&& actions[k] is CreateRecord <==> states[0].spec_op() == Operation::Add
        &&& actions[k] is UpdateRecord <==> states[0].spec_op() == Operation::Update
        &&& actions[k] is DeleteRecord <==> states[0].spec_op() == Operation::Delete
    } by {
        lemma_change_position(events, states, actions, k);
        lemma_progress(events, states, actions, k);
        assert(transition(states[k], events[k], states[k + 1], actions[k]));
    }
    if states[0].spec_op() == Operation::Add {
        assert forall|k: int| 0 <= k < actions.len() implies !(#[trigger] actions[k] is ListRecords) by {
            lemma_progress(events, states, actions, k);
            assert(transition(states[k], events[k], states[k + 1], actions[k]));
        }
    }
}

/// A client is told of success only right after the proxy sent Cloudflare a change.
pub proof fn lemma_success_follows_change(
    events: Seq<Event>,
    states: Seq<Session>,
    actions: Seq<Action>,
    k: int,
    text: Seq<char>,
)
    requires
        is_run(events, states, actions),
        states[0].spec_phase() is AwaitUsers,
        0 <= k < actions.len(),
        answers(actions[k], true, text),
    ensures
        k >= 1,
        changes_dns(actions[k - 1]),
{
    assert(transition(states[k], events[k], states[k + 1], actions[k]));
    assert(states[k].spec_phase() is AwaitChange);
    assert(k >= 1);
    assert(transition(states[k - 1], events[k - 1], states[k], actions[k - 1]));
}

/// The requests agree in everything but their record type names.
pub open spec fn differ_only_in_type(a: UpdateRequest, b: UpdateRequest) -> bool {
    &&& a.user@ == b.user@
    &&& a.key@ == b.key@
    &&& a.zone@ == b.zone@
    &&& a.rec@ == b.rec@
    &&& a.value@ == b.value@
}

/// The two type names, uppercased, name the same record type (or both none).
pub open spec fn same_type_name(a: UpdateRequest, b: UpdateRequest) -> bool {
    kind_named(unicode_uppercase(a.rectype@)) == kind_named(unicode_uppercase(b.rectype@))
}

/// A step reads the record type name only through the record type its uppercase names: a
/// session whose request differs only there, and whose uppercase names the same type, takes
/// the same answer the same way.
pub proof fn lemma_step_reads_type_through_kind(
    pre1: Session,
    pre2: Session,
    e: Event,
    post1: Session,
    post2: Session,
    act: Action,
)
    requires
        transition(pre1, e, post1, act),
        pre2.spec_op() == pre1.spec_op(),
        pre2.spec_phase() == pre1.spec_phase(),
        post2.spec_op() == post1.spec_op(),
        post2.spec_phase() == post1.spec_phase(),
        post2.spec_request() == pre2.spec_request(),
        differ_only_in_type(pre1.spec_request(), pre2.spec_request()),
        same_type_name(pre1.spec_request(), pre2.spec_request()),
    ensures
        transition(pre2, e, post2, act),
{
}

proof fn lemma_request_kept(events: Seq<Event>, states: Seq<Session>, actions: Seq<Action>, n: int)
    requires
        is_run(events, states, actions),
        0 <= n <= events.len(),
    ensures
        states[n].spec_request() == states[0].spec_request(),
    decreases n,
{
    if n > 0 {
        lemma_request_kept(events, states, actions, n - 1);
        assert(transition(states[n - 1], events[n - 1], states[n], actions[n - 1]));
    }
}

/// The record type name is read without regard to case: two requests that differ only in
/// their type names, where the names' uppercase name the same record type (as "txt" and
/// "TXT", or "aaaa" and "AAAA", do), run alike. Given the same answers from the database and
/// from Cloudflare, they ask for the same actions, in the same order, and get the same answer.
pub proof fn lemma_type_name_case_runs_alike(
    events: Seq<Event>,
    states1: Seq<Session>,
    states2: Seq<Session>,
    actions: Seq<Action>,
)
    requires
        is_run(events, states1, actions),
        states2.len() == states1.len(),
        forall|i: int|
            #![trigger states2[i]]
            0 <= i < states1.len() ==> {
                &&& states2[i].spec_op() == states1[i].spec_op()
                &&& states2[i].spec_phase() == states1[i].spec_phase()
                &&& states2[i].spec_request() == states2[0].spec_request()
            },
        differ_only_in_type(states1[0].spec_request(), states2[0].spec_request()),
        same_type_name(states1[0].spec_request(), states2[0].spec_request()),
    ensures
        is_run(events, states2, actions),
{
    assert forall|i: int| #![trigger actions[i]] 0 <= i < events.len() implies transition(
        states2[i],
        events[i],
        states2[i + 1],
        actions[i],
    ) by {
        lemma_request_kept(events, states1, actions, i);
        assert(transition(states1[i], events[i], states1[i + 1], actions[i]));
        assert(states2[i].spec_op() == states1[i].spec_op());
        assert(states2[i + 1].spec_op() == states1[i + 1].spec_op());
        lemma_step_reads_type_through_kind(
            states1[i],
            states2[i],
            events[i],
            states1[i + 1],
            states2[i + 1],
            actions[i],
        );
    }
}

/// A change that Cloudflare refuses is answered with the failure's description, and as a
/// failure, unless the session deletes a record: a refused deletion is answered as a success.
pub proof fn lemma_refused_change_answer(pre: Session, msg: String, post: Session, act: Action)
    requires
        pre.spec_phase() is AwaitChange,
        transition(pre, Event::ChangeApplied(Err(msg)), post, act),
    ensures
        act matches Action::Respond(r) && r.e@ == msg@ && (r.success <==> pre.spec_op() == Operation::Delete),
{
}

/// A change that Cloudflare makes is answered as a success, with Cloudflare's answer as text.
pub proof fn lemma_applied_change_answer(pre: Session, text: String, post: Session, act: Action)
    requires
        pre.spec_phase() is AwaitChange,
        transition(pre, Event::ChangeApplied(Ok(text)), post, act),
    ensures
        act matches Action::Respond(r) && r.success && r.e@ == text@,
{
}

/// After the records of the zone are listed, an update or a deletion acts on the first listed
/// record whose name is exactly the requested record name; an update keeps that record's
/// name, proxying and time to live. When no record has exactly that name, the client is
/// refused.
pub proof fn lemma_change_targets_first_exact_name(
    pre: Session,
    records: Vec<DnsRecordInfo>,
    post: Session,
    act: Action,
)
    requires
        pre.spec_phase() is AwaitRecords,
        transition(pre, Event::RecordsListed(Ok(records)), post, act),
    ensures
        (exists|i: int| 0 <= i < records@.len() && (#[trigger] records@[i]).name@ == pre.spec_request().rec@)
            <==> !(act is Respond),
        act matches Action::Respond(r) ==> !r.success,
        !(act is Respond) ==> exists|i: int| {
            &&& 0 <= i < records@.len()
            &&& records@[i].name@ == pre.spec_request().rec@
            &&& forall|j: int| 0 <= j < i ==> (#[trigger] records@[j]).name@ != pre.spec_request().rec@
            &&& match act {
                Action::UpdateRecord { record_id, name, proxied, ttl, .. } => {
                    &&& pre.spec_op() == Operation::Update
                    &&& record_id@ == records@[i].id@
                    &&& name@ == records@[i].name@
                    &&& proxied == records@[i].proxied
                    &&& ttl == records@[i].ttl
                },
                Action::DeleteRecord { record_id, .. } => pre.spec_op() != Operation::Update && record_id@
                    == records@[i].id@,
                _ => false,
            }
        },
{
    let rec = pre.spec_request().rec@;
    if exists|i: int| crate::record::first_named(records@, rec, i) {
        let i = choose|i: int| crate::record::first_named(records@, rec, i);
        assert(records@[i].name@ == rec);
        let e = Event::RecordsListed(Ok(records));
        assert(e matches Event::RecordsListed(Ok(rs)) && crate::record::first_named(rs@, pre.spec_request().rec@, i));

    } else {
        if exists|i: int| 0 <= i < records@.len() && (#[trigger] records@[i]).name@ == rec {
            let i = choose|i: int| 0 <= i < records@.len() && (#[trigger] records@[i]).name@ == rec;
            lemma_first_exact_exists(records@, rec, i);
            assert(false);
        }
        assert(act is Respond);
    }
}

proof fn lemma_first_exact_exists(records: Seq<DnsRecordInfo>, name: Seq<char>, i: int)
    requires
        0 <= i < records.len(),
        records[i].name@ == name,
    ensures
        exists|k: int| crate::record::first_named(records, name, k),
    decreases i,
{
    if exists|j: int| 0 <= j < i && (#[trigger] records[j]).name@ == name {
        let j = choose|j: int| 0 <= j < i && (#[trigger] records[j]).name@ == name;
        lemma_first_exact_exists(records, name, j);
    } else {
        assert(crate::record::first_named(records, name, i));
    }
}

/// The content has the record type that the request's uppercased type name names, and the
/// request's value.
pub open spec fn requested_content(c: RecordContent, req: UpdateRequest) -> bool {
    Some(c.kind) == kind_named(unicode_uppercase(req.rectype@)) && c.value@ == req.value@
}

/// The content a session holds, where it holds one, is the requested content.
pub open spec fn holds_requested_content(p: Phase, req: UpdateRequest) -> bool {
    match p {
        Phase::AwaitZones { content } => requested_content(content, req),
        Phase::AwaitZoneDetails { content } => requested_content(content, req),
        Phase::AwaitRecords { content, .. } => requested_content(content, req),
        _ => true,
    }
}

/// The content an action carries, where it carries one, is the requested content.
pub open spec fn carries_requested_content(act: Action, req: UpdateRequest) -> bool {
    match act {
        Action::ListRecords { content, .. } => requested_content(content, req),
        Action::CreateRecord { content, .. } => requested_content(content, req),
        Action::UpdateRecord { content, .. } => requested_content(content, req),
        _ => true,
    }
}

proof fn lemma_content_history(events: Seq<Event>, states: Seq<Session>, actions: Seq<Action>, n: int)
    requires
        is_run(events, states, actions),
        states[0].spec_phase() is AwaitUsers,
        0 <= n <= events.len(),
    ensures
        holds_requested_content(states[n].spec_phase(), states[0].spec_request()),
    decreases n,
{
    if n > 0 {
        lemma_content_history(events, states, actions, n - 1);
        lemma_request_kept(events, states, actions, n - 1);
        assert(transition(states[n - 1], events[n - 1], states[n], actions[n - 1]));
    }
}

/// The records a session lists, creates or updates are of the type the request's uppercased
/// type name names, and a created or updated record gets the request's value: an addition of
/// a TXT record creates a TXT record, and an update or deletion of one lists the TXT records.
pub proof fn lemma_content_is_requested(events: Seq<Event>, states: Seq<Session>, actions: Seq<Action>)
    requires
        is_run(events, states, actions),
        states[0].spec_phase() is AwaitUsers,
    ensures
        forall|k: int|
            0 <= k < actions.len() ==> carries_requested_content(#[trigger] actions[k], states[0].spec_request()),
{
    assert forall|k: int| 0 <= k < actions.len() implies carries_requested_content(
        #[trigger] actions[k],
        states[0].spec_request(),
    ) by {
        lemma_content_history(events, states, actions, k);
        lemma_request_kept(events, states, actions, k);
        assert(transition(states[k], events[k], states[k + 1], actions[k]));
    }
}

/// The action refuses the client, with this text.
pub open spec fn refuses(act: Action, text: Seq<char>) -> bool {
    act matches Action::Respond(r) && !r.success && r.e@ == text
}

/// The user is enabled and has this name and key.
pub open spec fn enabled_with(u: User, name: Seq<char>, key: Seq<char>) -> bool {
    !u.disabled && u.name@ == name && u.key@ == key
}

/// The users' answer: when exactly one enabled user has the request's name and key, the
/// session asks for that user's privileges on the request's zone; otherwise the client is
/// refused, with an empty text, or with `ERR_UNKNOWN` for a deletion.
pub proof fn lemma_users_answer(pre: Session, users: Vec<User>, post: Session, act: Action)
    requires
        pre.spec_phase() is AwaitUsers,
        transition(pre, Event::UsersLoaded(users), post, act),
    ensures
        ({
            let req = pre.spec_request();
            (exists|i: int|
                0 <= i < users@.len() && enabled_with(#[trigger] users@[i], req.user@, req.key@)
                    && forall|j: int|
                    0 <= j < users@.len() && j != i ==> !enabled_with(#[trigger] users@[j], req.user@, req.key@))
                <==> act is LoadPrivileges
        }),
        act matches Action::LoadPrivileges { user_id, zone } ==> zone@ == pre.spec_request().zone@ && exists|i: int|
            0 <= i < users@.len() && enabled_with(
                #[trigger] users@[i],
                pre.spec_request().user@,
                pre.spec_request().key@,
            ) && users@[i].id == user_id,
        !(act is LoadPrivileges) ==> refuses(
            act,
            if pre.spec_op() == Operation::Delete {
                "ERR_UNKNOWN"@
            } else {
                Seq::<char>::empty()
            },
        ),
{
    let req = pre.spec_request();
    if exists|i: int| sole_login(users@, req.user@, req.key@, i) {
        let i = choose|i: int| sole_login(users@, req.user@, req.key@, i);
        let e = Event::UsersLoaded(users);
        assert(e matches Event::UsersLoaded(us) && sole_login(us@, req.user@, req.key@, i));
        assert(enabled_with(users@[i], req.user@, req.key@));
        assert forall|j: int| 0 <= j < users@.len() && j != i implies !enabled_with(
            #[trigger] users@[j],
            req.user@,
            req.key@,
        ) by {
            assert(!crate::access::logs_in(users@[j], req.user@, req.key@));
        }
    } else {
        assert forall|i: int|
            0 <= i < users@.len() && enabled_with(#[trigger] users@[i], req.user@, req.key@) implies !forall|j: int|
            0 <= j < users@.len() && j != i ==> !enabled_with(#[trigger] users@[j], req.user@, req.key@) by {
            assert(!sole_login(users@, req.user@, req.key@, i));
            let j = choose|j: int|
                0 <= j < users@.len() && j != i && crate::access::logs_in(#[trigger] users@[j], req.user@, req.key@);
            assert(enabled_with(users@[j], req.user@, req.key@));
        }
    }
}

/// Some row has the zone and is a superuser row, or one whose pattern's search finds a match
/// in the record name.
pub open spec fn some_row_allows(rows: Seq<PrivilegeRow>, zone: Seq<char>, rec: Seq<char>) -> bool {
    exists|i: int|
        #![trigger rows[i]]
        0 <= i < rows.len() && rows[i].0@ == zone && (rows[i].2 || regex_finds(rows[i].1@, rec))
}

/// The privileges' answer: without a row on the zone that is superuser or whose pattern
/// matches the record name, the client is refused with `ERR_NO_PRIV`; with one, a type name
/// whose uppercase names no handled record type is refused with `ERR_REC_TYPE`; otherwise the
/// session asks for the zones named like the request's zone and holds the requested content.
pub proof fn lemma_privileges_answer(pre: Session, rows: Vec<PrivilegeRow>, post: Session, act: Action)
    requires
        pre.spec_phase() is AwaitPrivileges,
        transition(pre, Event::PrivilegesLoaded(rows), post, act),
    ensures
        !some_row_allows(rows@, pre.spec_request().zone@, pre.spec_request().rec@) ==> refuses(act, "ERR_NO_PRIV"@),
        some_row_allows(rows@, pre.spec_request().zone@, pre.spec_request().rec@) && kind_named(
            unicode_uppercase(pre.spec_request().rectype@),
        ) is None ==> refuses(act, "ERR_REC_TYPE"@),
        some_row_allows(rows@, pre.spec_request().zone@, pre.spec_request().rec@) && kind_named(
            unicode_uppercase(pre.spec_request().rectype@),
        ) is Some ==> {
            &&& act matches Action::ListZones { name } && name@ == pre.spec_request().zone@
            &&& post.spec_phase() matches Phase::AwaitZones { content } && requested_content(
                content,
                pre.spec_request(),
            )
        },
{
    lemma_grants_meaning(rows@, pre.spec_request().zone@, pre.spec_request().rec@);
}

/// The zones' answer: a failed listing is refused with `ERR_ZONE_NOT_FOUND`; otherwise the
/// session fetches the details of the first zone listed, keeping its content.
pub proof fn lemma_zones_answer(pre: Session, listed: Option<Vec<String>>, post: Session, act: Action)
    requires
        pre.spec_phase() is AwaitZones,
        transition(pre, Event::ZonesListed(listed), post, act),
    ensures
        listed is None ==> refuses(act, "ERR_ZONE_NOT_FOUND"@),
        listed matches Some(ids) ==> {
            &&& ids@.len() > 0
            &&& act matches Action::FetchZone { zone_id } && zone_id@ == ids@[0]@
            &&& post.spec_phase() matches Phase::AwaitZoneDetails { content } && pre.spec_phase()
                matches Phase::AwaitZones { content: c } && content == c
        },
{
}

/// The zone details' answer: a failure is refused with `ERR_NO_SUCH_ZONE` on an update and
/// with the failure's text otherwise. With the zone's id, an addition creates the requested
/// record in that zone, unproxied, with the default time to live and no priority; an update or
/// a deletion lists that zone's records of the held content's type.
pub proof fn lemma_zone_details_answer(
    pre: Session,
    fetched: Result<String, String>,
    post: Session,
    act: Action,
)
    requires
        pre.spec_phase() is AwaitZoneDetails,
        transition(pre, Event::ZoneFetched(fetched), post, act),
    ensures
        fetched matches Err(m) ==> refuses(
            act,
            if pre.spec_op() == Operation::Update {
                "ERR_NO_SUCH_ZONE"@
            } else {
                m@
            },
        ),
        fetched matches Ok(id) ==> pre.spec_phase() matches Phase::AwaitZoneDetails { content: held } && if pre.spec_op()
            == Operation::Add {
            act matches Action::CreateRecord { zone_id, name, content, proxied, ttl, priority } && zone_id@
                == id@ && name@ == pre.spec_request().rec@ && content == held && !proxied && ttl is None
                && priority is None
        } else {
            &&& act matches Action::ListRecords { zone_id, content } && zone_id@ == id@ && content == held
            &&& post.spec_phase() matches Phase::AwaitRecords { content, zone_id } && content == held
                && zone_id@ == id@
        },
{
}

/// The records' answer: a failed listing is refused with a text that names the failure, a
/// listing without a record of exactly the requested name with a text that names the record,
/// and a change acts in the zone whose records were listed.
pub proof fn lemma_records_answer(
    pre: Session,
    listed: Result<Vec<DnsRecordInfo>, String>,
    post: Session,
    act: Action,
)
    requires
        pre.spec_phase() is AwaitRecords,
        transition(pre, Event::RecordsListed(listed), post, act),
    ensures
        listed matches Err(m) ==> refuses(act, "Failed to list DNS A records: "@ + m@),
        listed matches Ok(records) && (forall|i: int|
            0 <= i < records@.len() ==> (#[trigger] records@[i]).name@ != pre.spec_request().rec@)
            ==> refuses(
            act,
            "Could not find A record for "@ + pre.spec_request().rec@,
        ),
        pre.spec_phase() matches Phase::AwaitRecords { zone_id: z, content: held } ==> {
            &&& act matches Action::UpdateRecord { zone_id, content, .. } ==> zone_id == z && content == held
            &&& act matches Action::DeleteRecord { zone_id, .. } ==> zone_id == z
        },
{
    if let Ok(records) = listed {
        let rec = pre.spec_request().rec@;
        if forall|i: int| 0 <= i < records@.len() ==> (#[trigger] records@[i]).name@ != rec {
            assert(!exists|i: int| crate::record::first_named(records@, rec, i));
        }
    }
}

/// Each answer a run takes answers what the run asked for just before: the users for the
/// users, the privileges for the privileges, and so on.
pub proof fn lemma_answers_what_was_asked(events: Seq<Event>, states: Seq<Session>, actions: Seq<Action>, k: int)
    requires
        is_run(events, states, actions),
        0 <= k < actions.len() - 1,
    ensures
        actions[k] is LoadPrivileges ==> events[k + 1] is PrivilegesLoaded,
        actions[k] is ListZones ==> events[k + 1] is ZonesListed,
        actions[k] is FetchZone ==> events[k + 1] is ZoneFetched,
        actions[k] is ListRecords ==> events[k + 1] is RecordsListed,
        changes_dns(actions[k]) ==> events[k + 1] is ChangeApplied,
        !(actions[k] is Respond),
{
    assert(transition(states[k], events[k], states[k + 1], actions[k]));
    assert(transition(states[k + 1], events[k + 1], states[k + 2], actions[k + 1]));
}

/// A session accepts exactly the answer to what it last asked for: a fresh session the users,
/// and after a step the answer to that step's action (none after it has answered the client).
pub proof fn lemma_waits_for_what_was_asked(
    events: Seq<Event>,
    states: Seq<Session>,
    actions: Seq<Action>,
    k: int,
    e: Event,
)
    requires
        is_run(events, states, actions),
        0 <= k < actions.len(),
    ensures
        states[0].spec_phase() is AwaitUsers ==> (waits_for(states[0].spec_phase(), e) <==> e is UsersLoaded),
        waits_for(states[k + 1].spec_phase(), e) <==> {
            ||| actions[k] is LoadPrivileges && e is PrivilegesLoaded
            ||| actions[k] is ListZones && e is ZonesListed
            ||| actions[k] is FetchZone && e is ZoneFetched
            ||| actions[k] is ListRecords && e is RecordsListed
            ||| changes_dns(actions[k]) && e is ChangeApplied
        },
{
    assert(transition(states[k], events[k], states[k + 1], actions[k]));
}

} // verus!
