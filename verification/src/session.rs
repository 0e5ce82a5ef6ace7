use vstd::prelude::*;

use crate::access::{grants, lemma_patterns_compile_meaning, patterns_compile, patterns_valid, privileges_grant, select_user, sole_login, PrivilegeRow};
use crate::models::{UpdateRequest, UpdateResult, User};
use crate::pattern::regex_compiles;
use crate::record::{
    find_record, first_named, kind_named, record_kind, unicode_uppercase, DnsRecordInfo, RecordContent,
};

verus! {

/// The change a client asks for.
#[derive(Clone, Copy, Debug, PartialEq, Eq, Structural)]
pub enum Operation {
    /// Give an existing record a new content.
    Update,
    /// Create a record.
    Add,
    /// Delete an existing record.
    Delete,
}

/// Where a session stands: which outside answer it waits for, or that it has answered.
#[derive(Debug)]
pub enum Phase {
    /// Waits for the users with the request's name and key.
    AwaitUsers,
    /// Waits for the privileges of the authenticated user on the request's zone.
    AwaitPrivileges { user_id: i32 },
    /// Waits for the zones that the Cloudflare account has under the request's zone name.
    AwaitZones { content: RecordContent },
    /// Waits for the details of the zone that was found.
    AwaitZoneDetails { content: RecordContent },
    /// Waits for the records of the zone with the requested type.
    AwaitRecords { content: RecordContent, zone_id: String },
    /// Waits for the outcome of the change that was sent to Cloudflare.
    AwaitChange,
    /// Has answered the client.
    Done,
}

/// An answer from the outside world: the database or the Cloudflare API.
#[derive(Debug)]
pub enum Event {
    /// The enabled users whose name and key are those of the request.
    UsersLoaded(Vec<User>),
    /// The privileges of the user on the request's zone.
    PrivilegesLoaded(Vec<PrivilegeRow>),
    /// The ids of the zones listed under the request's zone name; `None` when the listing failed.
    ZonesListed(Option<Vec<String>>),
    /// The id in the details of the zone, or the text of the error that the call returned.
    ZoneFetched(Result<String, String>),
    /// The records of the zone, or the description of the failure of the listing.
    RecordsListed(Result<Vec<DnsRecordInfo>, String>),
    /// The outcome of the change: the API's answer, or the description of its failure.
    ChangeApplied(Result<String, String>),
}

/// What a session asks of the outside world next.
#[allow(inconsistent_fields)]
#[derive(Debug)]
pub enum Action {
    /// Load the enabled users with this name and key.
    LoadUsers { name: String, key: String },
    /// Load the privileges of this user on sites of this zone.
    LoadPrivileges { user_id: i32, zone: String },
    /// List the zones of the Cloudflare account with this name.
    ListZones { name: String },
    /// Fetch the details of this zone.
    FetchZone { zone_id: String },
    /// List the records of the zone of the content's type, in ascending order.
    ListRecords { zone_id: String, content: RecordContent },
    /// Create a record.
    CreateRecord {
        zone_id: String,
        name: String,
        content: RecordContent,
        proxied: bool,
        ttl: Option<u32>,
        priority: Option<u16>,
    },
    /// Give a record a new content, keeping its name, proxying and time to live.
    UpdateRecord {
        zone_id: String,
        record_id: String,
        name: String,
        content: RecordContent,
        proxied: bool,
        ttl: u32,
    },
    /// Delete a record.
    DeleteRecord { zone_id: String, record_id: String },
    /// Answer the client.
    Respond(UpdateResult),
}

/// The handling of one client request, from authentication to the answer.
#[derive(Debug)]
pub struct Session {
    op: Operation,
    request: UpdateRequest,
    phase: Phase,
}

/// The event is the answer that a session in `phase` waits for.
pub open spec fn waits_for(phase: Phase, e: Event) -> bool {
    match phase {
        Phase::AwaitUsers => e is UsersLoaded,
        Phase::AwaitPrivileges { .. } => e is PrivilegesLoaded,
        Phase::AwaitZones { .. } => e is ZonesListed,
        Phase::AwaitZoneDetails { .. } => e is ZoneFetched,
        Phase::AwaitRecords { .. } => e is RecordsListed,
        Phase::AwaitChange => e is ChangeApplied,
        Phase::Done => false,
    }
}

/// The action answers the client with this success flag and this text.
pub open spec fn answers(act: Action, success: bool, text: Seq<char>) -> bool {
    act matches Action::Respond(r) && r.success == success && r.e@ == text
}

/// The action creates, updates or deletes a DNS record.
pub open spec fn changes_dns(act: Action) -> bool {
    act is CreateRecord || act is UpdateRecord || act is DeleteRecord
}

/// The text a client is answered when its name and key identify no single enabled user.
pub open spec fn unknown_user_text(op: Operation) -> Seq<char> {
    if op == Operation::Delete {
        "ERR_UNKNOWN"@
    } else {
        Seq::empty()
    }
}

/// One step of a session: `pre`, given the answer `e`, becomes `post` and asks for `act`.
/// A record is created unproxied, with the default time to live and no priority; an update
/// keeps the record's name, proxying and time to live. A deletion that Cloudflare refuses is
/// still answered as a success, with the failure's description as text.
/// (A session that adds a record never waits for a record listing; one that does is treated
/// as a deletion.)
pub open spec fn transition(pre: Session, e: Event, post: Session, act: Action) -> bool {
    let req = pre.spec_request();
    &&& post.spec_op() == pre.spec_op()
    &&& post.spec_request() == req
    &&& match pre.spec_phase() {
        Phase::AwaitUsers => match e {
            Event::UsersLoaded(users) => if exists|i: int| sole_login(users@, req.user@, req.key@, i) {
                let i = choose|i: int| sole_login(users@, req.user@, req.key@, i);
                &&& post.spec_phase() == (Phase::AwaitPrivileges { user_id: users@[i].id })
                &&& act matches Action::LoadPrivileges { user_id, zone }
                &&& user_id == users@[i].id
                &&& zone@ == req.zone@
            } else {
                post.spec_phase() is Done && answers(act, false, unknown_user_text(pre.spec_op()))
            },
            _ => false,
        },
        Phase::AwaitPrivileges { .. } => match e {
            Event::PrivilegesLoaded(rows) => if !grants(rows@, req.zone@, req.rec@) {
                post.spec_phase() is Done && answers(act, false, "ERR_NO_PRIV"@)
            } else {
                match kind_named(unicode_uppercase(req.rectype@)) {
                    None => post.spec_phase() is Done && answers(act, false, "ERR_REC_TYPE"@),
                    Some(k) => {
                        &&& post.spec_phase() matches Phase::AwaitZones { content }
                        &&& content.kind == k
                        &&& content.value@ == req.value@
                        &&& act matches Action::ListZones { name }
                        &&& name@ == req.zone@
                    },
                }
            },
            _ => false,
        },
        Phase::AwaitZones { content } => match e {
            Event::ZonesListed(None) => post.spec_phase() is Done && answers(act, false, "ERR_ZONE_NOT_FOUND"@),
            Event::ZonesListed(Some(ids)) => {
                &&& ids@.len() > 0
                &&& post.spec_phase() == (Phase::AwaitZoneDetails { content })
                &&& act matches Action::FetchZone { zone_id }
                &&& zone_id == ids@[0]
            },
            _ => false,
        },
        Phase::AwaitZoneDetails { content } => match e {
            Event::ZoneFetched(Err(msg)) => {
                &&& post.spec_phase() is Done
                &&& answers(act, false, if pre.spec_op() == Operation::Update { "ERR_NO_SUCH_ZONE"@ } else { msg@ })
            },
            Event::ZoneFetched(Ok(id)) => if pre.spec_op() == Operation::Add {
                &&& post.spec_phase() is AwaitChange
                &&& act matches Action::CreateRecord { zone_id, name, content: c, proxied, ttl, priority }
                &&& zone_id == id
                &&& name@ == req.rec@
                &&& c == content
                &&& !proxied
                &&& ttl is None
                &&& priority is None
            } else {
                &&& post.spec_phase() == (Phase::AwaitRecords { content, zone_id: id })
                &&& act matches Action::ListRecords { zone_id, content: c }
                &&& zone_id == id
                &&& c == content
            },
            _ => false,
        },
        Phase::AwaitRecords { content, zone_id } => match e {
            Event::RecordsListed(Err(msg)) => {
                &&& post.spec_phase() is Done
                &&& answers(act, false, "Failed to list DNS A records: "@ + msg@)
            },
            Event::RecordsListed(Ok(records)) => if exists|i: int| first_named(records@, req.rec@, i) {
                let i = choose|i: int| first_named(records@, req.rec@, i);
                &&& post.spec_phase() is AwaitChange
                &&& if pre.spec_op() == Operation::Update {
                    &&& act matches Action::UpdateRecord { zone_id: z, record_id, name, content: c, proxied, ttl }
                    &&& z == zone_id
                    &&& record_id == records@[i].id
                    &&& name == records@[i].name
                    &&& c == content
                    &&& proxied == records@[i].proxied
                    &&& ttl == records@[i].ttl
                } else {
                    &&& act matches Action::DeleteRecord { zone_id: z, record_id }
                    &&& z == zone_id
                    &&& record_id == records@[i].id
                }
            } else {
                &&& post.spec_phase() is Done
                &&& answers(act, false, "Could not find A record for "@ + req.rec@)
            },
            _ => false,
        },
        Phase::AwaitChange => match e {
            Event::ChangeApplied(Ok(text)) => post.spec_phase() is Done && answers(act, true, text@),
            Event::ChangeApplied(Err(msg)) => post.spec_phase() is Done && answers(
                act,
                pre.spec_op() == Operation::Delete,
                msg@,
            ),
            _ => false,
        },
        Phase::Done => false,
    }
}

/// An answer to the client.
fn respond(success: bool, e: String) -> (act: Action)
    ensures
        answers(act, success, e@),
{
    Action::Respond(UpdateResult { success, e })
}

impl Session {
    /// The change the session's client asked for.
    pub closed spec fn spec_op(&self) -> Operation {
        self.op
    }

    /// The request the session handles.
    pub closed spec fn spec_request(&self) -> UpdateRequest {
        self.request
    }

    /// Where the session stands.
    pub closed spec fn spec_phase(&self) -> Phase {
        self.phase
    }

    /// The change the session's client asked for.
    pub fn op(&self) -> (r: Operation)
        ensures
            r == self.spec_op(),
    {
        self.op
    }

    /// The request the session handles.
    pub fn request(&self) -> (r: &UpdateRequest)
        ensures
            *r == self.spec_request(),
    {
        &self.request
    }

    /// Where the session stands.
    pub fn phase(&self) -> (r: &Phase)
        ensures
            *r == self.spec_phase(),
    {
        &self.phase
    }

    /// Starts handling `request`: the first thing to do is to load the users with its name and key.
    pub fn new(op: Operation, request: UpdateRequest) -> (r: (Session, Action))
        ensures
            r.0.spec_op() == op,
            r.0.spec_request() == request,
            r.0.spec_phase() is AwaitUsers,
            r.1 matches Action::LoadUsers { name, key } && name@ == request.user@ && key@ == request.key@,
    {
        let name = request.user.clone();
        let key = request.key.clone();
        (Session { op, request, phase: Phase::AwaitUsers }, Action::LoadUsers { name, key })
    }

    /// Whether `e` is the answer this session waits for.
    pub fn accepts(&self, e: &Event) -> (b: bool)
        ensures
            b == waits_for(self.spec_phase(), *e),
    {
        match (&self.phase, e) {
            (Phase::AwaitUsers, Event::UsersLoaded(_)) => true,
            (Phase::AwaitPrivileges { .. }, Event::PrivilegesLoaded(_)) => true,
            (Phase::AwaitZones { .. }, Event::ZonesListed(_)) => true,
            (Phase::AwaitZoneDetails { .. }, Event::ZoneFetched(_)) => true,
            (Phase::AwaitRecords { .. }, Event::RecordsListed(_)) => true,
            (Phase::AwaitChange, Event::ChangeApplied(_)) => true,
            _ => false,
        }
    }

    /// Takes the answer `e` and says what to do next. A client whose name and key identify no
    /// single enabled user, who holds no privilege for the record on the zone, or who asks for a
    /// record type the proxy does not handle, is refused before Cloudflare is called.
    pub fn step(self, e: Event) -> (r: (Session, Action))
        requires
            waits_for(self.spec_phase(), e),
            e matches Event::PrivilegesLoaded(rows) ==> patterns_compile(rows@, self.spec_request().zone@),
            e matches Event::ZonesListed(Some(ids)) ==> ids@.len() > 0,
        ensures
            transition(self, e, r.0, r.1),
    {
        let ghost pre = self;
        let Session { op, request, phase } = self;
        match phase {
            Phase::AwaitUsers => {
                if let Event::UsersLoaded(users) = e {
                    match select_user(&users, request.user.as_str(), request.key.as_str()) {
                        Some(i) => {
                            let user_id = users[i].id;
                            let zone = request.zone.clone();
                            (
                                Session { op, request, phase: Phase::AwaitPrivileges { user_id } },
                                Action::LoadPrivileges { user_id, zone },
                            )
                        },
                        None => {
                            let text = if op == Operation::Delete {
                                String::from_str("ERR_UNKNOWN")
                            } else {
                                String::new()
                            };
                            (Session { op, request, phase: Phase::Done }, respond(false, text))
                        },
                    }
                } else {
                    proof {
                        assert(false);
                    }
                    (Session { op, request, phase: Phase::Done }, respond(false, String::new()))
                }
            },
            Phase::AwaitPrivileges { .. } => {
                if let Event::PrivilegesLoaded(rows) = e {
                    if !privileges_grant(&rows, request.zone.as_str(), request.rec.as_str()) {
                        (
                            Session { op, request, phase: Phase::Done },
                            respond(false, String::from_str("ERR_NO_PRIV")),
                        )
                    } else {
                        match record_kind(request.rectype.as_str()) {
                            None => (
                                Session { op, request, phase: Phase::Done },
                                respond(false, String::from_str("ERR_REC_TYPE")),
                            ),
                            Some(kind) => {
                                let content = RecordContent { kind, value: request.value.clone() };
                                let name = request.zone.clone();
                                (
                                    Session { op, request, phase: Phase::AwaitZones { content } },
                                    Action::ListZones { name },
                                )
                            },
                        }
                    }
                } else {
                    proof {
                        assert(false);
                    }
                    (Session { op, request, phase: Phase::Done }, respond(false, String::new()))
                }
            },
            Phase::AwaitZones { content } => {
                if let Event::ZonesListed(listed) = e {
                    match listed {
                        None => (
                            Session { op, request, phase: Phase::Done },
                            respond(false, String::from_str("ERR_ZONE_NOT_FOUND")),
                        ),
                        Some(ids) => {
                            let zone_id = ids[0].clone();
                            (
                                Session { op, request, phase: Phase::AwaitZoneDetails { content } },
                                Action::FetchZone { zone_id },
                            )
                        },
                    }
                } else {
                    proof {
                        assert(false);
                    }
                    (Session { op, request, phase: Phase::Done }, respond(false, String::new()))
                }
            },
            Phase::AwaitZoneDetails { content } => {
                if let Event::ZoneFetched(fetched) = e {
                    match fetched {
                        Err(msg) => {
                            let text = if op == Operation::Update {
                                String::from_str("ERR_NO_SUCH_ZONE")
                            } else {
                                msg
                            };
                            (Session { op, request, phase: Phase::Done }, respond(false, text))
                        },
                        Ok(id) => {
                            if op == Operation::Add {
                                let name = request.rec.clone();
                                (
                                    Session { op, request, phase: Phase::AwaitChange },
                                    Action::CreateRecord {
                                        zone_id: id,
                                        name,
                                        content,
                                        proxied: false,
                                        ttl: None,
                                        priority: None,
                                    },
                                )
                            } else {
                                let listed = RecordContent { kind: content.kind, value: content.value.clone() };
                                let zone_id = id.clone();
                                (
                                    Session {
                                        op,
                                        request,
                                        phase: Phase::AwaitRecords { content, zone_id: id },
                                    },
                                    Action::ListRecords { zone_id, content: listed },
                                )
                            }
                        },
                    }
                } else {
                    proof {
                        assert(false);
                    }
                    (Session { op, request, phase: Phase::Done }, respond(false, String::new()))
                }
            },
            Phase::AwaitRecords { content, zone_id } => {
                if let Event::RecordsListed(listed) = e {
                    match listed {
                        Err(msg) => {
                            let mut text = String::from_str("Failed to list DNS A records: ");
                            text.append(msg.as_str());
                            (Session { op, request, phase: Phase::Done }, respond(false, text))
                        },
                        Ok(records) => match find_record(&records, request.rec.as_str()) {
                            None => {
                                let mut text = String::from_str("Could not find A record for ");
                                text.append(request.rec.as_str());
                                (Session { op, request, phase: Phase::Done }, respond(false, text))
                            },
                            Some(i) => {
                                let record_id = records[i].id.clone();
                                let act = if op == Operation::Update {
                                    Action::UpdateRecord {
                                        zone_id,
                                        record_id,
                                        name: records[i].name.clone(),
                                        content,
                                        proxied: records[i].proxied,
                                        ttl: records[i].ttl,
                                    }
                                } else {
                                    Action::DeleteRecord { zone_id, record_id }
                                };
                                (Session { op, request, phase: Phase::AwaitChange }, act)
                            },
                        },
                    }
                } else {
                    proof {
                        assert(false);
                    }
                    (Session { op, request, phase: Phase::Done }, respond(false, String::new()))
                }
            },
            Phase::AwaitChange => {
                if let Event::ChangeApplied(outcome) = e {
                    match outcome {
                        Ok(text) => (Session { op, request, phase: Phase::Done }, respond(true, text)),
                        Err(msg) => {
                            let success = op == Operation::Delete;
                            (Session { op, request, phase: Phase::Done }, respond(success, msg))
                        },
                    }
                } else {
                    proof {
                        assert(false);
                    }
                    (Session { op, request, phase: Phase::Done }, respond(false, String::new()))
                }
            },
            Phase::Done => {
                proof {
                    assert(false);
                }
                (Session { op, request, phase: Phase::Done }, respond(false, String::new()))
            },
        }
    }

    /// Takes the answer `e` like `step`, where a privilege pattern on the zone may fail to
    /// compile: the session is handed back unchanged, as `Err`, when one does not.
    pub fn advance(self, e: Event) -> (r: Result<(Session, Action), Session>)
        requires
            waits_for(self.spec_phase(), e),
            e matches Event::ZonesListed(Some(ids)) ==> ids@.len() > 0,
        ensures
            r is Err <==> (e matches Event::PrivilegesLoaded(rows) && !patterns_compile(
                rows@,
                self.spec_request().zone@,
            )),
            r is Err <==> (e matches Event::PrivilegesLoaded(rows) && exists|i: int|
                #![trigger rows@[i]]
                0 <= i < rows@.len() && rows@[i].0@ == self.spec_request().zone@ && !regex_compiles(
                    rows@[i].1@,
                )),
            r matches Err(s) ==> s == self,
            r matches Ok(p) ==> transition(self, e, p.0, p.1),
    {
        proof {
            if e is PrivilegesLoaded {
                lemma_patterns_compile_meaning(e->PrivilegesLoaded_0@, self.spec_request().zone@);
            }
        }
        let valid = match &e {
            Event::PrivilegesLoaded(rows) => patterns_valid(rows, self.request.zone.as_str()),
            _ => true,
        };
        if valid {
            Ok(self.step(e))
        } else {
            Err(self)
        }
    }
}

} // verus!
