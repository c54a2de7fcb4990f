//! In-memory persistence store.
//!
//! The store realizes the narrow interface the service expects from its
//! relational database: create/get/list operations keyed by numeric
//! surrogate ids.  Rows live in insertion order; a row's id is its position
//! plus one, which mirrors an auto-increment key for a store that never
//! deletes.  Every operation's effect is stated exactly, so the scenarios
//! the service promises (idempotent token upserts, newest-first listings,
//! defaulted fields) are checked rather than assumed.

use vstd::prelude::*;
use crate::models::{
    User, CreateUser, Session, CreateSession, Notification, CreateNotification, DeviceToken,
    CreateDeviceToken, clone_opt_string,
};
use crate::datetime::{DateTime, spec_dt_le, dt_le};
use crate::text::str_eq;
use crate::seqs::lemma_filter_push;
use vstd::relations::sorted_by;
use vstd::string::StringExecFns;

verus! {

/// The first user row carrying the given external account identifier, in
/// insertion order.
pub open spec fn first_user_with_uid(users: Seq<User>, uid: Seq<char>) -> Option<User>
    decreases users.len(),
{
    if users.len() == 0 {
        None
    } else if users[0].firebase_uid@ == uid {
        Some(users[0])
    } else {
        first_user_with_uid(users.drop_first(), uid)
    }
}

/// Whether a session involves the given user as either participant.
pub open spec fn session_of_user(user_id: u64) -> spec_fn(Session) -> bool {
    |s: Session| s.user_id == user_id || s.mentor_id == user_id
}

/// "Newest scheduled first" order on sessions.
pub open spec fn newest_scheduled_first() -> spec_fn(Session, Session) -> bool {
    |a: Session, b: Session| spec_dt_le(b.scheduled_at, a.scheduled_at)
}

/// "Newest created first" order on notifications.
pub open spec fn newest_created_first() -> spec_fn(Notification, Notification) -> bool {
    |a: Notification, b: Notification| spec_dt_le(b.created_at, a.created_at)
}

/// Whether a notification is unread and addressed to the given user.
pub open spec fn unread_of_user(user_id: u64) -> spec_fn(Notification) -> bool {
    |n: Notification| n.user_id == user_id && !n.is_read
}

/// Whether a device token row belongs to the given user.
pub open spec fn token_of_user(user_id: u64) -> spec_fn(DeviceToken) -> bool {
    |t: DeviceToken| t.user_id == user_id
}

/// The token strings of a sequence of device token rows.
pub open spec fn token_strings(tokens: Seq<DeviceToken>) -> Seq<Seq<char>> {
    tokens.map_values(|t: DeviceToken| t.token@)
}

/// The contents of a sequence of strings.
pub open spec fn string_views(ss: Seq<String>) -> Seq<Seq<char>> {
    ss.map_values(|s: String| s@)
}

/// In-memory store holding all persisted rows.
pub struct Store {
    pub users: Vec<User>,
    pub sessions: Vec<Session>,
    pub notifications: Vec<Notification>,
    pub device_tokens: Vec<DeviceToken>,
}

/// Post-state of creating a user: one row appended, with the role defaulted
/// to "user" when the payload carries none and both timestamps set to
/// `now`; everything else untouched.
pub open spec fn user_created(pre: Store, post: Store, user: CreateUser, now: DateTime, id: u64) -> bool {
    &&& id == pre.users@.len() + 1
    &&& post.users@.len() == pre.users@.len() + 1
    &&& post.users@.drop_last() == pre.users@
    &&& ({
        let u = post.users@.last();
        &&& u.id == id
        &&& u.firebase_uid@ == user.firebase_uid@
        &&& u.email@ == user.email@
        &&& u.display_name == user.display_name
        &&& u.photo_url == user.photo_url
        &&& u.role@ == (if user.role is Some {
            user.role.unwrap()@
        } else {
            "user"@
        })
        &&& u.created_at == now
        &&& u.updated_at == now
    })
    &&& post.sessions@ == pre.sessions@
    &&& post.notifications@ == pre.notifications@
    &&& post.device_tokens@ == pre.device_tokens@
}

/// Post-state of creating a session: one row appended, with the duration
/// defaulted to 60 minutes when the payload carries none, the status
/// starting as "scheduled", and both row timestamps set to `now`;
/// everything else untouched.
pub open spec fn session_created(
    pre: Store,
    post: Store,
    session: CreateSession,
    now: DateTime,
    id: u64,
) -> bool {
    &&& id == pre.sessions@.len() + 1
    &&& post.sessions@.len() == pre.sessions@.len() + 1
    &&& post.sessions@.drop_last() == pre.sessions@
    &&& ({
        let s = post.sessions@.last();
        &&& s.id == id
        &&& s.user_id == session.user_id
        &&& s.mentor_id == session.mentor_id
        &&& s.title@ == session.title@
        &&& s.description == session.description
        &&& s.scheduled_at == session.scheduled_at
        &&& s.duration_minutes == (if session.duration_minutes is Some {
            session.duration_minutes.unwrap()
        } else {
            60
        })
        &&& s.status@ == "scheduled"@
        &&& s.meeting_link == session.meeting_link
        &&& s.created_at == now
        &&& s.updated_at == now
    })
    &&& post.users@ == pre.users@
    &&& post.notifications@ == pre.notifications@
    &&& post.device_tokens@ == pre.device_tokens@
}

/// Post-state of creating a notification: one unread row appended, created
/// at `now`; everything else untouched.
pub open spec fn notification_created(
    pre: Store,
    post: Store,
    notification: CreateNotification,
    now: DateTime,
    id: u64,
) -> bool {
    &&& id == pre.notifications@.len() + 1
    &&& post.notifications@.len() == pre.notifications@.len() + 1
    &&& post.notifications@.drop_last() == pre.notifications@
    &&& ({
        let nrow = post.notifications@.last();
        &&& nrow.id == id
        &&& nrow.user_id == notification.user_id
        &&& nrow.title@ == notification.title@
        &&& nrow.body@ == notification.body@
        &&& nrow.notification_type@ == notification.notification_type@
        &&& nrow.data == notification.data
        &&& nrow.is_read == false
        &&& nrow.created_at == now
    })
    &&& post.users@ == pre.users@
    &&& post.sessions@ == pre.sessions@
    &&& post.device_tokens@ == pre.device_tokens@
}

/// Post-state of marking a notification read: the row with that id, if any,
/// has its read flag set; everything else untouched.
pub open spec fn notification_marked(pre: Store, post: Store, notification_id: u64) -> bool {
    &&& 1 <= notification_id <= pre.notifications@.len() ==> post.notifications@
        == pre.notifications@.update(
        notification_id as int - 1,
        Notification { is_read: true, ..pre.notifications@[notification_id as int - 1] },
    )
    &&& !(1 <= notification_id <= pre.notifications@.len()) ==> post.notifications@
        == pre.notifications@
    &&& post.users@ == pre.users@
    &&& post.sessions@ == pre.sessions@
    &&& post.device_tokens@ == pre.device_tokens@
}

/// Post-state of upserting a device token: a stored (user, token) pair only
/// has its update timestamp refreshed, an unknown pair is appended as a
/// fresh row; everything else untouched.
pub open spec fn token_upserted(pre: Store, post: Store, token: CreateDeviceToken, now: DateTime) -> bool {
    &&& (exists|i: int|
        0 <= i < pre.device_tokens@.len() && (#[trigger] pre.device_tokens@[i]).user_id
            == token.user_id && pre.device_tokens@[i].token@ == token.token@) ==> exists|i: int|
        0 <= i < pre.device_tokens@.len() && (#[trigger] pre.device_tokens@[i]).user_id
            == token.user_id && pre.device_tokens@[i].token@ == token.token@
            && post.device_tokens@ == pre.device_tokens@.update(
            i,
            DeviceToken { updated_at: now, ..pre.device_tokens@[i] },
        )
    &&& !(exists|i: int|
        0 <= i < pre.device_tokens@.len() && (#[trigger] pre.device_tokens@[i]).user_id
            == token.user_id && pre.device_tokens@[i].token@ == token.token@) ==> {
        &&& post.device_tokens@.len() == pre.device_tokens@.len() + 1
        &&& post.device_tokens@.drop_last() == pre.device_tokens@
        &&& ({
            let t = post.device_tokens@.last();
            &&& t.id == pre.device_tokens@.len() + 1
            &&& t.user_id == token.user_id
            &&& t.token@ == token.token@
            &&& t.device_type@ == token.device_type@
            &&& t.created_at == now
            &&& t.updated_at == now
        })
    }
    &&& post.users@ == pre.users@
    &&& post.sessions@ == pre.sessions@
    &&& post.notifications@ == pre.notifications@
}

impl Store {
    /// Well-formedness: each row's id is its position plus one, no two
    /// device token rows share a (user, token) pair, and every stored
    /// timestamp is calendar-valid.
    pub open spec fn wf(&self) -> bool {
        &&& forall|i: int| 0 <= i < self.users@.len() ==> (#[trigger] self.users@[i].id) == i + 1
        &&& forall|i: int|
            0 <= i < self.sessions@.len() ==> (#[trigger] self.sessions@[i].id) == i + 1
        &&& forall|i: int|
            0 <= i < self.notifications@.len() ==> (#[trigger] self.notifications@[i].id) == i + 1
        &&& forall|i: int|
            0 <= i < self.device_tokens@.len() ==> (#[trigger] self.device_tokens@[i].id) == i + 1
        &&& forall|i: int, j: int|
            0 <= i < j < self.device_tokens@.len() ==> !((#[trigger] self.device_tokens@[i]).user_id
                == (#[trigger] self.device_tokens@[j]).user_id && self.device_tokens@[i].token@
                == self.device_tokens@[j].token@)
        &&& forall|i: int|
            0 <= i < self.users@.len() ==> (#[trigger] self.users@[i]).created_at.wf()
                && self.users@[i].updated_at.wf()
        &&& forall|i: int|
            0 <= i < self.sessions@.len() ==> (#[trigger] self.sessions@[i]).scheduled_at.wf()
                && self.sessions@[i].created_at.wf() && self.sessions@[i].updated_at.wf()
        &&& forall|i: int|
            0 <= i < self.notifications@.len() ==> (#[trigger] self.notifications@[i]).created_at.wf()
        &&& forall|i: int|
            0 <= i < self.device_tokens@.len() ==> (#[trigger] self.device_tokens@[i]).created_at.wf()
                && self.device_tokens@[i].updated_at.wf()
    }

    /// An empty store.
    pub fn new() -> (r: Store)
        ensures
            r.wf(),
            r.users@.len() == 0,
            r.sessions@.len() == 0,
            r.notifications@.len() == 0,
            r.device_tokens@.len() == 0,
    {
        Store {
            users: Vec::new(),
            sessions: Vec::new(),
            notifications: Vec::new(),
            device_tokens: Vec::new(),
        }
    }

    /// Inserts a user row and returns its id.  The stored role defaults to
    /// "user" when the payload carries none; both timestamps are set to
    /// `now`.
    pub fn create_user(&mut self, user: &CreateUser, now: DateTime) -> (id: u64)
        requires
            old(self).wf(),
            now.wf(),
        ensures
            final(self).wf(),
            user_created(*old(self), *final(self), *user, now, id),
    {
        let role: String = match &user.role {
            Some(r) => r.clone(),
            None => String::from_str("user"),
        };
        let row = User {
            id: 0,
            firebase_uid: user.firebase_uid.clone(),
            email: user.email.clone(),
            display_name: clone_opt_string(&user.display_name),
            photo_url: clone_opt_string(&user.photo_url),
            role,
            created_at: now,
            updated_at: now,
        };
        self.users.push(row);
        let n = self.users.len();
        let id = n as u64;
        self.users[n - 1].id = id;
        proof {
            assert(self.users@.drop_last() =~= old(self).users@);
        }
        id
    }

    /// Looks a user up by id: the row with that id, or nothing when no such
    /// row exists.
    pub fn get_user_by_id(&self, user_id: u64) -> (r: Option<User>)
        requires
            self.wf(),
        ensures
            match r {
                Some(u) => 1 <= user_id <= self.users@.len() && u == self.users@[user_id as int
                    - 1],
                None => user_id < 1 || user_id > self.users@.len(),
            },
    {
        if user_id >= 1 && user_id <= self.users.len() as u64 {
            let i = (user_id - 1) as usize;
            Some(self.users[i].clone())
        } else {
            None
        }
    }

    /// Looks a user up by external account identifier: the first row with
    /// that identifier, or nothing when no row carries it.
    pub fn get_user_by_firebase_uid(&self, firebase_uid: &str) -> (r: Option<User>)
        requires
            self.wf(),
        ensures
            r == first_user_with_uid(self.users@, firebase_uid@),
    {
        let n = self.users.len();
        let mut i: usize = 0;
        proof {
            assert(self.users@.skip(0) =~= self.users@);
        }
        while i < n
            invariant
                n == self.users@.len(),
                i <= n,
                first_user_with_uid(self.users@, firebase_uid@) == first_user_with_uid(
                    self.users@.skip(i as int),
                    firebase_uid@,
                ),
            decreases n - i,
        {
            proof {
                assert(self.users@.skip(i as int)[0] == self.users@[i as int]);
                assert(self.users@.skip(i as int).drop_first() =~= self.users@.skip(i + 1));
            }
            if str_eq(self.users[i].firebase_uid.as_str(), firebase_uid) {
                return Some(self.users[i].clone());
            }
            i += 1;
        }
        None
    }

    /// Inserts a session row and returns its id.  The stored duration
    /// defaults to 60 minutes when the payload carries none; the stored
    /// status starts as "scheduled"; both timestamps are set to `now`.
    pub fn create_session(&mut self, session: &CreateSession, now: DateTime) -> (id: u64)
        requires
            old(self).wf(),
            now.wf(),
            session.scheduled_at.wf(),
        ensures
            final(self).wf(),
            session_created(*old(self), *final(self), *session, now, id),
    {
        let duration_minutes: i32 = match session.duration_minutes {
            Some(d) => d,
            None => 60,
        };
        let row = Session {
            id: 0,
            user_id: session.user_id,
            mentor_id: session.mentor_id,
            title: session.title.clone(),
            description: clone_opt_string(&session.description),
            scheduled_at: session.scheduled_at,
            duration_minutes,
            status: String::from_str("scheduled"),
            meeting_link: clone_opt_string(&session.meeting_link),
            created_at: now,
            updated_at: now,
        };
        self.sessions.push(row);
        let n = self.sessions.len();
        let id = n as u64;
        self.sessions[n - 1].id = id;
        proof {
            assert(self.sessions@.drop_last() =~= old(self).sessions@);
        }
        id
    }

    /// Lists the sessions in which the user takes part, as either
    /// participant, newest scheduled time first.  The result holds exactly
    /// the matching rows.
    pub fn get_sessions_by_user(&self, user_id: u64) -> (r: Vec<Session>)
        requires
            self.wf(),
        ensures
            r@.to_multiset() == self.sessions@.filter(session_of_user(user_id)).to_multiset(),
            sorted_by(r@, newest_scheduled_first()),
            forall|i: int| 0 <= i < r@.len() ==> (#[trigger] r@[i]).scheduled_at.wf(),
    {
        let ghost p = session_of_user(user_id);
        let mut result: Vec<Session> = Vec::new();
        let n = self.sessions.len();
        let mut i: usize = 0;
        proof {
            broadcast use vstd::seq_lib::group_to_multiset_ensures;
            assert(self.sessions@.take(0) =~= Seq::<Session>::empty());
            crate::seqs::lemma_filter_none(Seq::<Session>::empty(), p);
        }
        while i < n
            invariant
                self.wf(),
                n == self.sessions@.len(),
                i <= n,
                result@.to_multiset() == self.sessions@.take(i as int).filter(
                    session_of_user(user_id),
                ).to_multiset(),
                sorted_by(result@, newest_scheduled_first()),
                forall|k: int| 0 <= k < result@.len() ==> (#[trigger] result@[k]).scheduled_at.wf(),
            decreases n - i,
        {
            let s = &self.sessions[i];
            proof {
                assert(self.sessions@.take(i + 1) =~= self.sessions@.take(i as int).push(
                    self.sessions@[i as int],
                ));
                lemma_filter_push(
                    self.sessions@.take(i as int),
                    self.sessions@[i as int],
                    session_of_user(user_id),
                );
                broadcast use vstd::seq_lib::group_to_multiset_ensures;
            }
            if s.user_id == user_id || s.mentor_id == user_id {
                let item = s.clone();
                insert_newest_first(&mut result, item);
            }
            i += 1;
        }
        proof {
            assert(self.sessions@.take(n as int) =~= self.sessions@);
        }
        result
    }

    /// Inserts a notification row and returns its id.  The row starts
    /// unread, created at `now`.
    pub fn create_notification(&mut self, notification: &CreateNotification, now: DateTime) -> (id:
        u64)
        requires
            old(self).wf(),
            now.wf(),
        ensures
            final(self).wf(),
            notification_created(*old(self), *final(self), *notification, now, id),
    {
        let row = Notification {
            id: 0,
            user_id: notification.user_id,
            title: notification.title.clone(),
            body: notification.body.clone(),
            notification_type: notification.notification_type.clone(),
            data: clone_opt_string(&notification.data),
            is_read: false,
            created_at: now,
        };
        self.notifications.push(row);
        let n = self.notifications.len();
        let id = n as u64;
        self.notifications[n - 1].id = id;
        proof {
            assert(self.notifications@.drop_last() =~= old(self).notifications@);
        }
        id
    }

    /// Lists the user's unread notifications, newest created first: exactly
    /// the matching rows, sorted by creation time descending.
    pub fn get_unread_notifications(&self, user_id: u64) -> (r: Vec<Notification>)
        requires
            self.wf(),
        ensures
            r@.to_multiset() == self.notifications@.filter(unread_of_user(user_id)).to_multiset(),
            sorted_by(r@, newest_created_first()),
            forall|i: int| 0 <= i < r@.len() ==> (#[trigger] r@[i]).created_at.wf(),
    {
        let ghost p = unread_of_user(user_id);
        let mut result: Vec<Notification> = Vec::new();
        let n = self.notifications.len();
        let mut i: usize = 0;
        proof {
            broadcast use vstd::seq_lib::group_to_multiset_ensures;
            assert(self.notifications@.take(0) =~= Seq::<Notification>::empty());
            crate::seqs::lemma_filter_none(Seq::<Notification>::empty(), p);
        }
        while i < n
            invariant
                self.wf(),
                n == self.notifications@.len(),
                i <= n,
                result@.to_multiset() == self.notifications@.take(i as int).filter(
                    unread_of_user(user_id),
                ).to_multiset(),
                sorted_by(result@, newest_created_first()),
                forall|k: int| 0 <= k < result@.len() ==> (#[trigger] result@[k]).created_at.wf(),
            decreases n - i,
        {
            let nrow = &self.notifications[i];
            proof {
                assert(self.notifications@.take(i + 1) =~= self.notifications@.take(
                    i as int,
                ).push(self.notifications@[i as int]));
                lemma_filter_push(
                    self.notifications@.take(i as int),
                    self.notifications@[i as int],
                    unread_of_user(user_id),
                );
                broadcast use vstd::seq_lib::group_to_multiset_ensures;
            }
            if nrow.user_id == user_id && !nrow.is_read {
                let item = nrow.clone();
                insert_newest_created(&mut result, item);
            }
            i += 1;
        }
        proof {
            assert(self.notifications@.take(n as int) =~= self.notifications@);
        }
        result
    }

    /// Marks the notification with the given id as read.  Marking an
    /// already-read or unknown notification succeeds silently, so the
    /// operation is idempotent.
    pub fn mark_notification_read(&mut self, notification_id: u64)
        requires
            old(self).wf(),
        ensures
            final(self).wf(),
            notification_marked(*old(self), *final(self), notification_id),
    {
        if notification_id >= 1 && notification_id <= self.notifications.len() as u64 {
            let i = (notification_id - 1) as usize;
            self.notifications[i].is_read = true;
        }
    }

    /// Registers a device token, as an idempotent upsert: re-registering a
    /// (user, token) pair that is already stored only refreshes that row's
    /// update timestamp, never duplicating the row; an unknown pair is
    /// inserted as a fresh row.
    pub fn upsert_device_token(&mut self, token: &CreateDeviceToken, now: DateTime)
        requires
            old(self).wf(),
            now.wf(),
        ensures
            final(self).wf(),
            token_upserted(*old(self), *final(self), *token, now),
    {
        let n = self.device_tokens.len();
        let mut i: usize = 0;
        while i < n
            invariant
                old(self).wf(),
                now.wf(),
                n == self.device_tokens@.len(),
                *self == *old(self),
                i <= n,
                forall|j: int|
                    0 <= j < i ==> !((#[trigger] self.device_tokens@[j]).user_id == token.user_id
                        && self.device_tokens@[j].token@ == token.token@),
            decreases n - i,
        {
            let row = &self.device_tokens[i];
            if row.user_id == token.user_id && str_eq(row.token.as_str(), token.token.as_str()) {
                self.device_tokens[i].updated_at = now;
                return ;
            }
            i += 1;
        }
        let row = DeviceToken {
            id: 0,
            user_id: token.user_id,
            token: token.token.clone(),
            device_type: token.device_type.clone(),
            created_at: now,
            updated_at: now,
        };
        self.device_tokens.push(row);
        let m = self.device_tokens.len();
        let id = m as u64;
        self.device_tokens[m - 1].id = id;
        proof {
            assert(self.device_tokens@.drop_last() =~= old(self).device_tokens@);
        }
    }

    /// Lists the token strings registered for the user, in insertion order.
    pub fn get_user_device_tokens(&self, user_id: u64) -> (r: Vec<String>)
        requires
            self.wf(),
        ensures
            string_views(r@) == token_strings(
                self.device_tokens@.filter(token_of_user(user_id)),
            ),
    {
        let ghost p = token_of_user(user_id);
        let mut result: Vec<String> = Vec::new();
        let n = self.device_tokens.len();
        let mut i: usize = 0;
        proof {
            assert(self.device_tokens@.take(0) =~= Seq::<DeviceToken>::empty());
            crate::seqs::lemma_filter_none(Seq::<DeviceToken>::empty(), p);
            assert(string_views(result@) =~= token_strings(
                self.device_tokens@.take(0).filter(p),
            ));
        }
        while i < n
            invariant
                n == self.device_tokens@.len(),
                i <= n,
                string_views(result@) == token_strings(
                    self.device_tokens@.take(i as int).filter(token_of_user(user_id)),
                ),
            decreases n - i,
        {
            let row = &self.device_tokens[i];
            proof {
                assert(self.device_tokens@.take(i + 1) =~= self.device_tokens@.take(i as int).push(
                    self.device_tokens@[i as int],
                ));
                lemma_filter_push(
                    self.device_tokens@.take(i as int),
                    self.device_tokens@[i as int],
                    token_of_user(user_id),
                );
            }
            if row.user_id == user_id {
                let ghost before = result@;
                let t = row.token.clone();
                result.push(t);
                proof {
                    assert(string_views(result@) =~= string_views(before).push(
                        self.device_tokens@[i as int].token@,
                    ));
                    assert(token_strings(
                        self.device_tokens@.take(i as int).filter(token_of_user(user_id)).push(
                            self.device_tokens@[i as int],
                        ),
                    ) =~= token_strings(
                        self.device_tokens@.take(i as int).filter(token_of_user(user_id)),
                    ).push(self.device_tokens@[i as int].token@));
                }
            }
            i += 1;
        }
        proof {
            assert(self.device_tokens@.take(n as int) =~= self.device_tokens@);
        }
        result
    }
}

/// Inserts a session into a list sorted newest-scheduled-first, keeping the
/// order and adding exactly the new element.
fn insert_newest_first(result: &mut Vec<Session>, item: Session)
    requires
        sorted_by(old(result)@, newest_scheduled_first()),
        forall|k: int| 0 <= k < old(result)@.len() ==> (#[trigger] old(result)@[k]).scheduled_at.wf(),
        item.scheduled_at.wf(),
    ensures
        sorted_by(final(result)@, newest_scheduled_first()),
        final(result)@.to_multiset() == old(result)@.to_multiset().insert(item),
        forall|k: int| 0 <= k < final(result)@.len() ==> (#[trigger] final(result)@[k]).scheduled_at.wf(),
{
    let n = result.len();
    let mut pos: usize = 0;
    while pos < n && !dt_le(&result[pos].scheduled_at, &item.scheduled_at)
        invariant
            n == result@.len(),
            pos <= n,
            forall|j: int|
                0 <= j < pos ==> !spec_dt_le(
                    (#[trigger] result@[j]).scheduled_at,
                    item.scheduled_at,
                ),
        decreases n - pos,
    {
        pos += 1;
    }
    proof {
        vstd::seq_lib::to_multiset_insert(result@, pos as int, item);
    }
    let ghost prev = result@;
    result.insert(pos, item);
    proof {
        let cur = result@;
        assert forall|k: int| 0 <= k < cur.len() implies (#[trigger] cur[k]).scheduled_at.wf() by {
            if k < pos {
                assert(cur[k] == prev[k]);
            } else if k == pos {
                assert(cur[k] == item);
            } else {
                assert(cur[k] == prev[k - 1]);
            }
        }
        let rel = newest_scheduled_first();
        assert forall|a: int, b: int| 0 <= a < b < cur.len() implies #[trigger] rel(
            cur[a],
            cur[b],
        ) by {
            if b < pos {
                assert(cur[a] == prev[a] && cur[b] == prev[b]);
                assert(rel(prev[a], prev[b]));
            } else if b == pos {
                assert(cur[b] == item);
                assert(cur[a] == prev[a]);
                assert(!spec_dt_le(prev[a].scheduled_at, item.scheduled_at));
                crate::datetime::lemma_dt_le_total(prev[a].scheduled_at, item.scheduled_at);
            } else {
                assert(cur[b] == prev[b - 1]);
                if a < pos {
                    assert(cur[a] == prev[a]);
                    assert(rel(prev[a], prev[b - 1]));
                } else if a == pos {
                    assert(cur[a] == item);
                    assert(pos < prev.len());
                    assert(spec_dt_le(prev[pos as int].scheduled_at, item.scheduled_at));
                    if b - 1 > pos {
                        assert(rel(prev[pos as int], prev[b - 1]));
                        crate::datetime::lemma_dt_le_trans(
                            prev[b - 1].scheduled_at,
                            prev[pos as int].scheduled_at,
                            item.scheduled_at,
                        );
                    }
                } else {
                    assert(cur[a] == prev[a - 1]);
                    assert(rel(prev[a - 1], prev[b - 1]));
                }
            }
        }
    }
}


/// Inserts a notification into a list sorted newest-created-first, keeping
/// the order and adding exactly the new element.
fn insert_newest_created(result: &mut Vec<Notification>, item: Notification)
    requires
        sorted_by(old(result)@, newest_created_first()),
        forall|k: int| 0 <= k < old(result)@.len() ==> (#[trigger] old(result)@[k]).created_at.wf(),
        item.created_at.wf(),
    ensures
        sorted_by(final(result)@, newest_created_first()),
        final(result)@.to_multiset() == old(result)@.to_multiset().insert(item),
        forall|k: int| 0 <= k < final(result)@.len() ==> (#[trigger] final(result)@[k]).created_at.wf(),
{
    let n = result.len();
    let mut pos: usize = 0;
    while pos < n && !dt_le(&result[pos].created_at, &item.created_at)
        invariant
            n == result@.len(),
            pos <= n,
            forall|j: int|
                0 <= j < pos ==> !spec_dt_le(
                    (#[trigger] result@[j]).created_at,
                    item.created_at,
                ),
        decreases n - pos,
    {
        pos += 1;
    }
    proof {
        vstd::seq_lib::to_multiset_insert(result@, pos as int, item);
    }
    let ghost prev = result@;
    result.insert(pos, item);
    proof {
        let cur = result@;
        assert forall|k: int| 0 <= k < cur.len() implies (#[trigger] cur[k]).created_at.wf() by {
            if k < pos {
                assert(cur[k] == prev[k]);
            } else if k == pos {
                assert(cur[k] == item);
            } else {
                assert(cur[k] == prev[k - 1]);
            }
        }
        let rel = newest_created_first();
        assert forall|a: int, b: int| 0 <= a < b < cur.len() implies #[trigger] rel(
            cur[a],
            cur[b],
        ) by {
            if b < pos {
                assert(cur[a] == prev[a] && cur[b] == prev[b]);
                assert(rel(prev[a], prev[b]));
            } else if b == pos {
                assert(cur[b] == item);
                assert(cur[a] == prev[a]);
                assert(!spec_dt_le(prev[a].created_at, item.created_at));
                crate::datetime::lemma_dt_le_total(prev[a].created_at, item.created_at);
            } else {
                assert(cur[b] == prev[b - 1]);
                if a < pos {
                    assert(cur[a] == prev[a]);
                    assert(rel(prev[a], prev[b - 1]));
                } else if a == pos {
                    assert(cur[a] == item);
                    assert(pos < prev.len());
                    assert(spec_dt_le(prev[pos as int].created_at, item.created_at));
                    if b - 1 > pos {
                        assert(rel(prev[pos as int], prev[b - 1]));
                        crate::datetime::lemma_dt_le_trans(
                            prev[b - 1].created_at,
                            prev[pos as int].created_at,
                            item.created_at,
                        );
                    }
                } else {
                    assert(cur[a] == prev[a - 1]);
                    assert(rel(prev[a - 1], prev[b - 1]));
                }
            }
        }
    }
}

} // verus!
