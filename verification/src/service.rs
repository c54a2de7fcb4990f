//! Service orchestrator: one entry point per operation kind.
//!
//! Every operation runs the same pipeline: count the request, check
//! admission where the operation is rate limited, validate, execute the
//! business call against the store, and count exactly one of
//! successful/failed on the way out.  Validation and admission failures are
//! decided before any store call.  The rate limit keys on the
//! caller-supplied external account identifier — not on transport-level
//! address — so one human is throttled consistently across connections;
//! concretely, user creation is the admission-gated operation, keyed on the
//! account identifier being created.
//!
//! Credential verification is a pluggable external collaborator: the
//! transport layer extracts and verifies bearer tokens (see `auth`) before
//! handing requests in, so these entry points take already-screened
//! requests, as the reference transport does.
//!
//! The caller supplies the current time twice over: as milliseconds for the
//! admission window and as a calendar timestamp for stored rows.

use vstd::prelude::*;
use crate::metrics::{Metrics, sat_inc, spec_snapshot_rate};
use crate::rate_limit::{RateLimiter, admit_decision, step_times};
use crate::store::{
    Store, first_user_with_uid, session_of_user, newest_scheduled_first, newest_created_first,
    unread_of_user,
    token_of_user, token_strings, string_views, user_created, session_created,
    notification_created, notification_marked, token_upserted,
};
use crate::models::{
    User, CreateUser, Session, CreateSession, Notification, CreateNotification, CreateDeviceToken,
    clone_opt_string,
};
use crate::datetime::{
    DateTime, parse_datetime, format_datetime, spec_datetime_chars, valid_datetime_chars,
    spec_parse_datetime,
};
use crate::fcm::{NotificationType, fcm_message_json, spec_fcm_message_json};
use vstd::relations::sorted_by;
use vstd::string::StringExecFns;

verus! {

/// The failure categories a request can end in.
#[derive(Clone, Copy, PartialEq, Eq, Structural, Debug)]
pub enum ServiceError {
    Unauthenticated,
    InvalidArgument,
    NotFound,
    ResourceExhausted,
    PermissionDenied,
    Internal,
}

impl ServiceError {
    /// The caller-facing text for this failure category.
    pub fn message(&self) -> (r: String)
        ensures
            r@ == match *self {
                ServiceError::Unauthenticated => "unauthenticated"@,
                ServiceError::InvalidArgument => "invalid argument"@,
                ServiceError::NotFound => "not found"@,
                ServiceError::ResourceExhausted => "Rate limit exceeded. Please try again later."@,
                ServiceError::PermissionDenied => "Insufficient permissions"@,
                ServiceError::Internal => "internal error"@,
            },
    {
        match self {
            ServiceError::Unauthenticated => String::from_str("unauthenticated"),
            ServiceError::InvalidArgument => String::from_str("invalid argument"),
            ServiceError::NotFound => String::from_str("not found"),
            ServiceError::ResourceExhausted => String::from_str(
                "Rate limit exceeded. Please try again later.",
            ),
            ServiceError::PermissionDenied => String::from_str("Insufficient permissions"),
            ServiceError::Internal => String::from_str("internal error"),
        }
    }
}

/// How a user is looked up: by surrogate id or by external identifier.
pub enum UserIdentifier {
    UserId(u64),
    FirebaseUid(String),
}

/// Request to create a session; the scheduled time arrives as text and is
/// validated against the fixed `YYYY-MM-DD HH:MM:SS` pattern.
pub struct CreateSessionRequest {
    pub user_id: u64,
    pub mentor_id: u64,
    pub title: String,
    pub description: Option<String>,
    pub scheduled_at: String,
    pub duration_minutes: Option<i32>,
    pub meeting_link: Option<String>,
}

/// Request to send a notification to a user's registered devices.
pub struct SendNotificationRequest {
    pub user_id: u64,
    pub title: String,
    pub body: String,
    pub notification_type: String,
    pub data: Option<String>,
}

/// Reply to a ping.
pub struct PingResponse {
    pub message: String,
}

/// Reply carrying one user row.
pub struct UserResponse {
    pub id: u64,
    pub firebase_uid: String,
    pub email: String,
    pub display_name: Option<String>,
    pub photo_url: Option<String>,
    pub role: String,
    pub created_at: String,
}

/// Reply carrying one session row.
pub struct SessionResponse {
    pub id: u64,
    pub user_id: u64,
    pub mentor_id: u64,
    pub title: String,
    pub description: Option<String>,
    pub scheduled_at: String,
    pub duration_minutes: i32,
    pub status: String,
    pub meeting_link: Option<String>,
}

/// Reply carrying a list of sessions.
pub struct SessionListResponse {
    pub sessions: Vec<SessionResponse>,
}

/// Reply carrying one notification row.
pub struct NotificationResponse {
    pub id: u64,
    pub user_id: u64,
    pub title: String,
    pub body: String,
    pub notification_type: String,
    pub data: Option<String>,
    pub is_read: bool,
    pub created_at: String,
}

/// Reply carrying a list of notifications.
pub struct NotificationListResponse {
    pub notifications: Vec<NotificationResponse>,
}

/// Reply carrying the metrics counters and the derived success rate.
pub struct MetricsResponse {
    pub total_requests: u64,
    pub successful_requests: u64,
    pub failed_requests: u64,
    pub success_rate_hundredths: u64,
    pub total_users_created: u64,
    pub total_sessions_created: u64,
    pub total_notifications_sent: u64,
}

/// Empty reply.
pub struct EmptyResponse {}

/// One best-effort push delivery for the transport layer to attempt: the
/// device token to address and the gateway message body to send.  A failed
/// delivery is logged and skipped by the caller; it never fails the request
/// that produced it.
pub struct PushMessage {
    pub token: String,
    pub payload: String,
}

/// The shared mutable state of the core: admission control and metrics.
pub struct AppState {
    pub rate_limiter: RateLimiter,
    pub metrics: Metrics,
}

impl AppState {
    /// Well-formedness of the shared state.
    pub open spec fn wf(&self) -> bool {
        self.rate_limiter.wf()
    }
}

/// One request was counted, ending successfully: total and successful each
/// advance by one.
pub open spec fn counted_ok(pre: Metrics, post: Metrics) -> bool {
    post == (Metrics {
        total_requests: sat_inc(pre.total_requests),
        successful_requests: sat_inc(pre.successful_requests),
        ..pre
    })
}

/// One request was counted, ending in failure: total and failed each
/// advance by one.
pub open spec fn counted_failed(pre: Metrics, post: Metrics) -> bool {
    post == (Metrics {
        total_requests: sat_inc(pre.total_requests),
        failed_requests: sat_inc(pre.failed_requests),
        ..pre
    })
}

/// A successful user creation was counted: total, successful and
/// users-created each advance by one.
pub open spec fn counted_user_created(pre: Metrics, post: Metrics) -> bool {
    post == (Metrics {
        total_requests: sat_inc(pre.total_requests),
        successful_requests: sat_inc(pre.successful_requests),
        total_users_created: sat_inc(pre.total_users_created),
        ..pre
    })
}

/// A successful session creation was counted: total, successful and
/// sessions-created each advance by one.
pub open spec fn counted_session_created(pre: Metrics, post: Metrics) -> bool {
    post == (Metrics {
        total_requests: sat_inc(pre.total_requests),
        successful_requests: sat_inc(pre.successful_requests),
        total_sessions_created: sat_inc(pre.total_sessions_created),
        ..pre
    })
}

/// A successful notification send was counted: total, successful and
/// notifications-sent each advance by one.
pub open spec fn counted_notification_sent(pre: Metrics, post: Metrics) -> bool {
    post == (Metrics {
        total_requests: sat_inc(pre.total_requests),
        successful_requests: sat_inc(pre.successful_requests),
        total_notifications_sent: sat_inc(pre.total_notifications_sent),
        ..pre
    })
}

/// Whether a session-row reply mirrors a stored session row, with the
/// scheduled time rendered canonically.
pub open spec fn matches_session(resp: SessionResponse, s: Session) -> bool {
    &&& resp.id == s.id
    &&& resp.user_id == s.user_id
    &&& resp.mentor_id == s.mentor_id
    &&& resp.title@ == s.title@
    &&& resp.description == s.description
    &&& resp.scheduled_at@ == spec_datetime_chars(s.scheduled_at)
    &&& resp.duration_minutes == s.duration_minutes
    &&& resp.status@ == s.status@
    &&& resp.meeting_link == s.meeting_link
}

/// Whether a notification-row reply mirrors a stored notification row, with
/// the creation timestamp rendered canonically.
pub open spec fn matches_notification(resp: NotificationResponse, n: Notification) -> bool {
    &&& resp.id == n.id
    &&& resp.user_id == n.user_id
    &&& resp.title@ == n.title@
    &&& resp.body@ == n.body@
    &&& resp.notification_type@ == n.notification_type@
    &&& resp.data == n.data
    &&& resp.is_read == n.is_read
    &&& resp.created_at@ == spec_datetime_chars(n.created_at)
}

/// Whether a user-row reply mirrors a stored user row, with the creation
/// timestamp rendered canonically.
pub open spec fn matches_user(resp: UserResponse, u: User) -> bool {
    &&& resp.id == u.id
    &&& resp.firebase_uid@ == u.firebase_uid@
    &&& resp.email@ == u.email@
    &&& resp.display_name == u.display_name
    &&& resp.photo_url == u.photo_url
    &&& resp.role@ == u.role@
    &&& resp.created_at@ == spec_datetime_chars(u.created_at)
}

/// The service, holding the core's shared state.  The persistence store is
/// passed into each operation, as the collaborator the operation runs
/// against.
pub struct MyLinkWithMentor {
    pub state: AppState,
}

impl MyLinkWithMentor {
    /// A service around freshly constructed state.
    pub fn new(rate_limiter: RateLimiter) -> (r: MyLinkWithMentor)
        requires
            rate_limiter.wf(),
        ensures
            r.state.wf(),
            r.state.rate_limiter == rate_limiter,
            r.state.metrics == (Metrics {
                total_requests: 0,
                successful_requests: 0,
                failed_requests: 0,
                total_users_created: 0,
                total_sessions_created: 0,
                total_notifications_sent: 0,
            }),
    {
        MyLinkWithMentor { state: AppState { rate_limiter, metrics: Metrics::new() } }
    }

    /// Echoes the caller's message, counting one successful request.
    pub fn ping(&mut self, message: &str) -> (r: PingResponse)
        ensures
            r.message@ == "Pong: "@ + message@,
            counted_ok(old(self).state.metrics, final(self).state.metrics),
            final(self).state.rate_limiter == old(self).state.rate_limiter,
    {
        self.state.metrics.increment_requests();
        let mut reply = String::from_str("Pong: ");
        reply.append(message);
        self.state.metrics.increment_successful();
        PingResponse { message: reply }
    }

    /// Reports the current metrics, without counting the request itself.
    pub fn get_metrics(&self) -> (r: MetricsResponse)
        ensures
            ({
                let s = self.state.metrics.spec_snapshot();
                &&& r.total_requests == s.total_requests
                &&& r.successful_requests == s.successful_requests
                &&& r.failed_requests == s.failed_requests
                &&& r.success_rate_hundredths == spec_snapshot_rate(s)
                &&& r.total_users_created == s.total_users_created
                &&& r.total_sessions_created == s.total_sessions_created
                &&& r.total_notifications_sent == s.total_notifications_sent
            }),
    {
        let snapshot = self.state.metrics.get_snapshot();
        MetricsResponse {
            total_requests: snapshot.total_requests,
            successful_requests: snapshot.successful_requests,
            failed_requests: snapshot.failed_requests,
            success_rate_hundredths: snapshot.success_rate_hundredths(),
            total_users_created: snapshot.total_users_created,
            total_sessions_created: snapshot.total_sessions_created,
            total_notifications_sent: snapshot.total_notifications_sent,
        }
    }

    /// Creates a user.  The request is admission-gated on the external
    /// account identifier: when the identifier has already used up its
    /// window the request ends in `ResourceExhausted` and no row is
    /// created; otherwise the row is inserted (role defaulted to "user"),
    /// read back, and returned.
    pub fn create_user(
        &mut self,
        store: &mut Store,
        req: &CreateUser,
        now_millis: u64,
        now: DateTime,
    ) -> (r: Result<UserResponse, ServiceError>)
        requires
            old(self).state.wf(),
            old(store).wf(),
            now.wf(),
        ensures
            final(self).state.wf(),
            final(store).wf(),
            final(self).state.rate_limiter.max_requests == old(self).state.rate_limiter.max_requests,
            final(self).state.rate_limiter.window_millis == old(self).state.rate_limiter.window_millis,
            ({
                let limiter = old(self).state.rate_limiter;
                let admitted = admit_decision(
                    limiter.times_of(req.firebase_uid@),
                    now_millis,
                    limiter.max_requests as int,
                    limiter.window_millis,
                );
                &&& final(self).state.rate_limiter.times_of(req.firebase_uid@) == step_times(
                    limiter.times_of(req.firebase_uid@),
                    now_millis,
                    limiter.max_requests as int,
                    limiter.window_millis,
                )
                &&& forall|k: Seq<char>|
                    k != req.firebase_uid@ ==> #[trigger] final(self).state.rate_limiter.times_of(k) == limiter.times_of(k)
                &&& !admitted ==> {
                    &&& r == Err::<UserResponse, ServiceError>(ServiceError::ResourceExhausted)
                    &&& *final(store) == *old(store)
                    &&& counted_failed(old(self).state.metrics, final(self).state.metrics)
                }
                &&& admitted ==> {
                    &&& r is Ok
                    &&& user_created(*old(store), *final(store), *req, now, r.unwrap().id)
                    &&& matches_user(r.unwrap(), final(store).users@.last())
                    &&& counted_user_created(old(self).state.metrics, final(self).state.metrics)
                }
            }),
    {
        self.state.metrics.increment_requests();
        if !self.state.rate_limiter.check_rate_limit(req.firebase_uid.as_str(), now_millis) {
            self.state.metrics.increment_failed();
            return Err(ServiceError::ResourceExhausted);
        }
        let user_id = store.create_user(req, now);
        match store.get_user_by_id(user_id) {
            Some(created) => {
                self.state.metrics.increment_successful();
                self.state.metrics.increment_users_created();
                proof {
                    assert(store.users@[user_id as int - 1] == store.users@.last());
                }
                Ok(UserResponse {
                    id: created.id,
                    firebase_uid: created.firebase_uid,
                    email: created.email,
                    display_name: created.display_name,
                    photo_url: created.photo_url,
                    role: created.role,
                    created_at: format_datetime(&created.created_at),
                })
            },
            None => {
                // Unreachable: the row was just inserted under this id.
                self.state.metrics.increment_failed();
                Err(ServiceError::NotFound)
            },
        }
    }

    /// Looks a user up by id or by external identifier.  A request naming
    /// neither ends in `InvalidArgument`; an unknown user in `NotFound`.
    pub fn get_user(&mut self, store: &Store, identifier: &Option<UserIdentifier>) -> (r: Result<
        UserResponse,
        ServiceError,
    >)
        requires
            store.wf(),
        ensures
            final(self).state.rate_limiter == old(self).state.rate_limiter,
            identifier is None ==> r == Err::<UserResponse, ServiceError>(
                ServiceError::InvalidArgument,
            ) && counted_failed(old(self).state.metrics, final(self).state.metrics),
            ({
                identifier matches Some(UserIdentifier::UserId(id)) ==> {
                    &&& (1 <= *id <= store.users@.len()) ==> r is Ok && matches_user(
                        r.unwrap(),
                        store.users@[*id as int - 1],
                    ) && counted_ok(old(self).state.metrics, final(self).state.metrics)
                    &&& !(1 <= *id <= store.users@.len()) ==> r == Err::<
                        UserResponse,
                        ServiceError,
                    >(ServiceError::NotFound) && counted_failed(
                        old(self).state.metrics,
                        final(self).state.metrics,
                    )
                }
            }),
            ({
                identifier matches Some(UserIdentifier::FirebaseUid(uid)) ==> {
                    let found = first_user_with_uid(store.users@, uid@);
                    &&& found is Some ==> r is Ok && matches_user(r.unwrap(), found.unwrap())
                        && counted_ok(old(self).state.metrics, final(self).state.metrics)
                    &&& found is None ==> r == Err::<UserResponse, ServiceError>(
                        ServiceError::NotFound,
                    ) && counted_failed(old(self).state.metrics, final(self).state.metrics)
                }
            }),
    {
        self.state.metrics.increment_requests();
        let looked_up: Option<User> = match identifier {
            None => {
                self.state.metrics.increment_failed();
                return Err(ServiceError::InvalidArgument);
            },
            Some(UserIdentifier::UserId(id)) => store.get_user_by_id(*id),
            Some(UserIdentifier::FirebaseUid(uid)) => store.get_user_by_firebase_uid(uid.as_str()),
        };
        match looked_up {
            Some(user) => {
                self.state.metrics.increment_successful();
                proof {
                    match identifier {
                        Some(UserIdentifier::FirebaseUid(uid)) => {
                            lemma_first_user_wf(store.users@, uid@, *store);
                        },
                        _ => {},
                    }
                }
                Ok(UserResponse {
                    id: user.id,
                    firebase_uid: user.firebase_uid,
                    email: user.email,
                    display_name: user.display_name,
                    photo_url: user.photo_url,
                    role: user.role,
                    created_at: format_datetime(&user.created_at),
                })
            },
            None => {
                self.state.metrics.increment_failed();
                Err(ServiceError::NotFound)
            },
        }
    }

    /// Creates a session.  A scheduled time that does not match the fixed
    /// `YYYY-MM-DD HH:MM:SS` pattern, or is not calendar-valid, ends the
    /// request in `InvalidArgument` before any store call; otherwise the
    /// row is inserted with the duration defaulted to 60 minutes and the
    /// status starting as "scheduled".
    pub fn create_session(
        &mut self,
        store: &mut Store,
        req: &CreateSessionRequest,
        now: DateTime,
    ) -> (r: Result<SessionResponse, ServiceError>)
        requires
            old(store).wf(),
            now.wf(),
        ensures
            final(store).wf(),
            final(self).state.rate_limiter == old(self).state.rate_limiter,
            !valid_datetime_chars(req.scheduled_at@) ==> {
                &&& r == Err::<SessionResponse, ServiceError>(ServiceError::InvalidArgument)
                &&& *final(store) == *old(store)
                &&& counted_failed(old(self).state.metrics, final(self).state.metrics)
            },
            valid_datetime_chars(req.scheduled_at@) ==> {
                &&& r is Ok
                &&& session_created(
                    *old(store),
                    *final(store),
                    (CreateSession {
                        user_id: req.user_id,
                        mentor_id: req.mentor_id,
                        title: req.title,
                        description: req.description,
                        scheduled_at: spec_parse_datetime(req.scheduled_at@),
                        duration_minutes: req.duration_minutes,
                        meeting_link: req.meeting_link,
                    }),
                    now,
                    r.unwrap().id,
                )
                &&& matches_session(r.unwrap(), final(store).sessions@.last())
                &&& counted_session_created(old(self).state.metrics, final(self).state.metrics)
            },
    {
        self.state.metrics.increment_requests();
        let scheduled_at = match parse_datetime(req.scheduled_at.as_str()) {
            Some(dt) => dt,
            None => {
                self.state.metrics.increment_failed();
                return Err(ServiceError::InvalidArgument);
            },
        };
        let session = CreateSession {
            user_id: req.user_id,
            mentor_id: req.mentor_id,
            title: req.title.clone(),
            description: clone_opt_string(&req.description),
            scheduled_at,
            duration_minutes: req.duration_minutes,
            meeting_link: clone_opt_string(&req.meeting_link),
        };
        let session_id = store.create_session(&session, now);
        self.state.metrics.increment_successful();
        self.state.metrics.increment_sessions_created();
        let duration_minutes: i32 = match req.duration_minutes {
            Some(d) => d,
            None => 60,
        };
        Ok(SessionResponse {
            id: session_id,
            user_id: req.user_id,
            mentor_id: req.mentor_id,
            title: req.title.clone(),
            description: clone_opt_string(&req.description),
            scheduled_at: format_datetime(&scheduled_at),
            duration_minutes,
            status: String::from_str("scheduled"),
            meeting_link: clone_opt_string(&req.meeting_link),
        })
    }

    /// Lists the sessions in which the user takes part, newest scheduled
    /// time first; each reply row mirrors a stored row.
    pub fn get_user_sessions(&mut self, store: &Store, user_id: u64) -> (r: Result<
        SessionListResponse,
        ServiceError,
    >)
        requires
            store.wf(),
        ensures
            final(self).state.rate_limiter == old(self).state.rate_limiter,
            r is Ok,
            counted_ok(old(self).state.metrics, final(self).state.metrics),
            ({
                let resps = r.unwrap().sessions@;
                &&& resps.len() == store.sessions@.filter(session_of_user(user_id)).len()
                &&& exists|rows: Seq<Session>|
                    {
                        &&& (#[trigger] rows.to_multiset()) == store.sessions@.filter(
                            session_of_user(user_id),
                        ).to_multiset()
                        &&& sorted_by(rows, newest_scheduled_first())
                        &&& resps.len() == rows.len()
                        &&& forall|i: int|
                            0 <= i < resps.len() ==> matches_session(
                                #[trigger] resps[i],
                                rows[i],
                            )
                    }
            }),
    {
        self.state.metrics.increment_requests();
        let rows = store.get_sessions_by_user(user_id);
        let n = rows.len();
        let mut responses: Vec<SessionResponse> = Vec::new();
        let mut i: usize = 0;
        while i < n
            invariant
                n == rows@.len(),
                i <= n,
                responses@.len() == i,
                forall|k: int|
                    0 <= k < rows@.len() ==> (#[trigger] rows@[k]).scheduled_at.wf(),
                forall|k: int|
                    0 <= k < i ==> matches_session(#[trigger] responses@[k], rows@[k]),
            decreases n - i,
        {
            let s = &rows[i];
            responses.push(SessionResponse {
                id: s.id,
                user_id: s.user_id,
                mentor_id: s.mentor_id,
                title: s.title.clone(),
                description: clone_opt_string(&s.description),
                scheduled_at: format_datetime(&s.scheduled_at),
                duration_minutes: s.duration_minutes,
                status: s.status.clone(),
                meeting_link: clone_opt_string(&s.meeting_link),
            });
            i += 1;
        }
        self.state.metrics.increment_successful();
        proof {
            broadcast use vstd::seq_lib::group_to_multiset_ensures;
            assert(rows@.to_multiset().len() == rows@.len());
            assert(store.sessions@.filter(session_of_user(user_id)).to_multiset().len()
                == store.sessions@.filter(session_of_user(user_id)).len());
        }
        Ok(SessionListResponse { sessions: responses })
    }

    /// Sends a notification: the record is created first and is the source
    /// of truth, then one best-effort delivery is returned for every device
    /// token registered for the target user.  The request succeeds whether
    /// or not any token is registered; delivery failures are the caller's
    /// to log and skip.
    pub fn send_notification(
        &mut self,
        store: &mut Store,
        req: &SendNotificationRequest,
        now: DateTime,
    ) -> (r: (Result<NotificationResponse, ServiceError>, Vec<PushMessage>))
        requires
            old(store).wf(),
            now.wf(),
        ensures
            final(store).wf(),
            final(self).state.rate_limiter == old(self).state.rate_limiter,
            r.0 is Ok,
            notification_created(
                *old(store),
                *final(store),
                (CreateNotification {
                    user_id: req.user_id,
                    title: req.title,
                    body: req.body,
                    notification_type: req.notification_type,
                    data: req.data,
                }),
                now,
                r.0.unwrap().id,
            ),
            matches_notification(r.0.unwrap(), final(store).notifications@.last()),
            counted_notification_sent(old(self).state.metrics, final(self).state.metrics),
            ({
                let toks = token_strings(
                    final(store).device_tokens@.filter(token_of_user(req.user_id)),
                );
                &&& r.1@.len() == toks.len()
                &&& forall|i: int|
                    0 <= i < toks.len() ==> (#[trigger] r.1@[i]).token@ == toks[i]
                        && r.1@[i].payload@ == spec_fcm_message_json(
                        toks[i],
                        req.title@,
                        req.body@,
                        NotificationType::Standard,
                    )
            }),
    {
        self.state.metrics.increment_requests();
        let notification = CreateNotification {
            user_id: req.user_id,
            title: req.title.clone(),
            body: req.body.clone(),
            notification_type: req.notification_type.clone(),
            data: clone_opt_string(&req.data),
        };
        let notification_id = store.create_notification(&notification, now);
        let tokens = store.get_user_device_tokens(req.user_id);
        let m = tokens.len();
        let mut deliveries: Vec<PushMessage> = Vec::new();
        let mut i: usize = 0;
        while i < m
            invariant
                m == tokens@.len(),
                i <= m,
                deliveries@.len() == i,
                forall|k: int|
                    0 <= k < i ==> (#[trigger] deliveries@[k]).token@ == tokens@[k]@
                        && deliveries@[k].payload@ == spec_fcm_message_json(
                        tokens@[k]@,
                        req.title@,
                        req.body@,
                        NotificationType::Standard,
                    ),
            decreases m - i,
        {
            let payload = fcm_message_json(
                tokens[i].as_str(),
                req.title.as_str(),
                req.body.as_str(),
                &NotificationType::Standard,
            );
            deliveries.push(PushMessage { token: tokens[i].clone(), payload });
            i += 1;
        }
        self.state.metrics.increment_successful();
        self.state.metrics.increment_notifications_sent();
        proof {
            let toks = token_strings(store.device_tokens@.filter(token_of_user(req.user_id)));
            assert(string_views(tokens@) == toks);
            assert forall|k: int| 0 <= k < toks.len() implies (#[trigger] deliveries@[k]).token@
                == toks[k] && deliveries@[k].payload@ == spec_fcm_message_json(
                toks[k],
                req.title@,
                req.body@,
                NotificationType::Standard,
            ) by {
                assert(tokens@[k]@ == string_views(tokens@)[k]);
            }
        }
        (
            Ok(NotificationResponse {
                id: notification_id,
                user_id: req.user_id,
                title: req.title.clone(),
                body: req.body.clone(),
                notification_type: req.notification_type.clone(),
                data: clone_opt_string(&req.data),
                is_read: false,
                created_at: format_datetime(&now),
            }),
            deliveries,
        )
    }

    /// Lists the user's unread notifications, newest created first; each
    /// reply row mirrors a stored row.
    pub fn get_unread_notifications(&mut self, store: &Store, user_id: u64) -> (r: Result<
        NotificationListResponse,
        ServiceError,
    >)
        requires
            store.wf(),
        ensures
            final(self).state.rate_limiter == old(self).state.rate_limiter,
            r is Ok,
            counted_ok(old(self).state.metrics, final(self).state.metrics),
            ({
                let resps = r.unwrap().notifications@;
                &&& resps.len() == store.notifications@.filter(unread_of_user(user_id)).len()
                &&& exists|rows: Seq<Notification>|
                    {
                        &&& (#[trigger] rows.to_multiset()) == store.notifications@.filter(
                            unread_of_user(user_id),
                        ).to_multiset()
                        &&& sorted_by(rows, newest_created_first())
                        &&& resps.len() == rows.len()
                        &&& forall|i: int|
                            0 <= i < resps.len() ==> matches_notification(
                                #[trigger] resps[i],
                                rows[i],
                            )
                    }
            }),
    {
        self.state.metrics.increment_requests();
        let rows = store.get_unread_notifications(user_id);
        let n = rows.len();
        let mut responses: Vec<NotificationResponse> = Vec::new();
        let mut i: usize = 0;
        while i < n
            invariant
                n == rows@.len(),
                i <= n,
                responses@.len() == i,
                forall|k: int| 0 <= k < rows@.len() ==> (#[trigger] rows@[k]).created_at.wf(),
                forall|k: int|
                    0 <= k < i ==> matches_notification(#[trigger] responses@[k], rows@[k]),
            decreases n - i,
        {
            let nrow = &rows[i];
            responses.push(NotificationResponse {
                id: nrow.id,
                user_id: nrow.user_id,
                title: nrow.title.clone(),
                body: nrow.body.clone(),
                notification_type: nrow.notification_type.clone(),
                data: clone_opt_string(&nrow.data),
                is_read: nrow.is_read,
                created_at: format_datetime(&nrow.created_at),
            });
            i += 1;
        }
        self.state.metrics.increment_successful();
        proof {
            broadcast use vstd::seq_lib::group_to_multiset_ensures;
            assert(rows@.to_multiset().len() == rows@.len());
            assert(store.notifications@.filter(unread_of_user(user_id)).to_multiset().len()
                == store.notifications@.filter(unread_of_user(user_id)).len());
        }
        Ok(NotificationListResponse { notifications: responses })
    }

    /// Marks a notification read.  The operation is idempotent: marking an
    /// already-read or unknown notification still succeeds.
    pub fn mark_notification_read(&mut self, store: &mut Store, notification_id: u64) -> (r:
        Result<EmptyResponse, ServiceError>)
        requires
            old(store).wf(),
        ensures
            final(store).wf(),
            final(self).state.rate_limiter == old(self).state.rate_limiter,
            r is Ok,
            notification_marked(*old(store), *final(store), notification_id),
            counted_ok(old(self).state.metrics, final(self).state.metrics),
    {
        self.state.metrics.increment_requests();
        store.mark_notification_read(notification_id);
        self.state.metrics.increment_successful();
        Ok(EmptyResponse {})
    }

    /// Registers a device token, as an idempotent upsert: re-registering
    /// the same token for the same user refreshes its timestamp rather
    /// than duplicating the row.
    pub fn register_device_token(
        &mut self,
        store: &mut Store,
        req: &CreateDeviceToken,
        now: DateTime,
    ) -> (r: Result<EmptyResponse, ServiceError>)
        requires
            old(store).wf(),
            now.wf(),
        ensures
            final(store).wf(),
            final(self).state.rate_limiter == old(self).state.rate_limiter,
            r is Ok,
            token_upserted(*old(store), *final(store), *req, now),
            counted_ok(old(self).state.metrics, final(self).state.metrics),
    {
        self.state.metrics.increment_requests();
        store.upsert_device_token(req, now);
        self.state.metrics.increment_successful();
        Ok(EmptyResponse {})
    }
}

/// A user row found by external identifier is a stored row, so its
/// timestamps are calendar-valid.
proof fn lemma_first_user_wf(users: Seq<User>, uid: Seq<char>, store: Store)
    requires
        store.wf(),
        users == store.users@,
    ensures
        first_user_with_uid(users, uid) matches Some(u) ==> exists|i: int|
            0 <= i < store.users@.len() && (#[trigger] store.users@[i]) == u,
    decreases users.len(),
{
    if users.len() > 0 && users[0].firebase_uid@ != uid {
        lemma_first_user_suffix(store.users@, uid, store.users@.len() - users.len() + 1);
    }
}

/// The first matching row within any suffix of the stored rows is itself a
/// stored row.
proof fn lemma_first_user_suffix(users: Seq<User>, uid: Seq<char>, from: int)
    requires
        0 <= from <= users.len(),
    ensures
        first_user_with_uid(users.skip(from), uid) matches Some(u) ==> exists|i: int|
            0 <= i < users.len() && (#[trigger] users[i]) == u,
    decreases users.len() - from,
{
    let rest = users.skip(from);
    if rest.len() > 0 {
        if rest[0].firebase_uid@ == uid {
            assert(users[from] == rest[0]);
        } else {
            assert(rest.drop_first() =~= users.skip(from + 1));
            lemma_first_user_suffix(users, uid, from + 1);
        }
    }
}

} // verus!
