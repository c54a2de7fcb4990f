//! Data model: rows held by the persistence store and the creation payloads
//! the service hands to it.  Timestamps are plain calendar values.

use vstd::prelude::*;
use crate::datetime::DateTime;
use vstd::string::StringExecFns;

verus! {

/// Copies an optional string by content.
pub fn clone_opt_string(o: &Option<String>) -> (r: Option<String>)
    ensures
        r == *o,
{
    match o {
        Some(s) => Some(s.clone()),
        None => None,
    }
}

/// A stored user row.
pub struct User {
    pub id: u64,
    pub firebase_uid: String,
    pub email: String,
    pub display_name: Option<String>,
    pub photo_url: Option<String>,
    pub role: String,
    pub created_at: DateTime,
    pub updated_at: DateTime,
}

impl Clone for User {
    fn clone(&self) -> (r: Self)
        ensures
            r == *self,
    {
        User {
            id: self.id,
            firebase_uid: self.firebase_uid.clone(),
            email: self.email.clone(),
            display_name: clone_opt_string(&self.display_name),
            photo_url: clone_opt_string(&self.photo_url),
            role: self.role.clone(),
            created_at: self.created_at,
            updated_at: self.updated_at,
        }
    }
}

/// Payload for creating a user.
pub struct CreateUser {
    pub firebase_uid: String,
    pub email: String,
    pub display_name: Option<String>,
    pub photo_url: Option<String>,
    pub role: Option<String>,
}

impl Clone for CreateUser {
    fn clone(&self) -> (r: Self)
        ensures
            r == *self,
    {
        CreateUser {
            firebase_uid: self.firebase_uid.clone(),
            email: self.email.clone(),
            display_name: clone_opt_string(&self.display_name),
            photo_url: clone_opt_string(&self.photo_url),
            role: clone_opt_string(&self.role),
        }
    }
}

/// A stored mentoring session row.
pub struct Session {
    pub id: u64,
    pub user_id: u64,
    pub mentor_id: u64,
    pub title: String,
    pub description: Option<String>,
    pub scheduled_at: DateTime,
    pub duration_minutes: i32,
    pub status: String,
    pub meeting_link: Option<String>,
    pub created_at: DateTime,
    pub updated_at: DateTime,
}

impl Clone for Session {
    fn clone(&self) -> (r: Self)
        ensures
            r == *self,
    {
        Session {
            id: self.id,
            user_id: self.user_id,
            mentor_id: self.mentor_id,
            title: self.title.clone(),
            description: clone_opt_string(&self.description),
            scheduled_at: self.scheduled_at,
            duration_minutes: self.duration_minutes,
            status: self.status.clone(),
            meeting_link: clone_opt_string(&self.meeting_link),
            created_at: self.created_at,
            updated_at: self.updated_at,
        }
    }
}

/// Payload for creating a session.
pub struct CreateSession {
    pub user_id: u64,
    pub mentor_id: u64,
    pub title: String,
    pub description: Option<String>,
    pub scheduled_at: DateTime,
    pub duration_minutes: Option<i32>,
    pub meeting_link: Option<String>,
}

impl Clone for CreateSession {
    fn clone(&self) -> (r: Self)
        ensures
            r == *self,
    {
        CreateSession {
            user_id: self.user_id,
            mentor_id: self.mentor_id,
            title: self.title.clone(),
            description: clone_opt_string(&self.description),
            scheduled_at: self.scheduled_at,
            duration_minutes: self.duration_minutes,
            meeting_link: clone_opt_string(&self.meeting_link),
        }
    }
}

/// A stored notification row.
pub struct Notification {
    pub id: u64,
    pub user_id: u64,
    pub title: String,
    pub body: String,
    pub notification_type: String,
    pub data: Option<String>,
    pub is_read: bool,
    pub created_at: DateTime,
}

impl Clone for Notification {
    fn clone(&self) -> (r: Self)
        ensures
            r == *self,
    {
        Notification {
            id: self.id,
            user_id: self.user_id,
            title: self.title.clone(),
            body: self.body.clone(),
            notification_type: self.notification_type.clone(),
            data: clone_opt_string(&self.data),
            is_read: self.is_read,
            created_at: self.created_at,
        }
    }
}

/// Payload for creating a notification record.
pub struct CreateNotification {
    pub user_id: u64,
    pub title: String,
    pub body: String,
    pub notification_type: String,
    pub data: Option<String>,
}

impl Clone for CreateNotification {
    fn clone(&self) -> (r: Self)
        ensures
            r == *self,
    {
        CreateNotification {
            user_id: self.user_id,
            title: self.title.clone(),
            body: self.body.clone(),
            notification_type: self.notification_type.clone(),
            data: clone_opt_string(&self.data),
        }
    }
}

/// A stored device token row.
pub struct DeviceToken {
    pub id: u64,
    pub user_id: u64,
    pub token: String,
    pub device_type: String,
    pub created_at: DateTime,
    pub updated_at: DateTime,
}

impl Clone for DeviceToken {
    fn clone(&self) -> (r: Self)
        ensures
            r == *self,
    {
        DeviceToken {
            id: self.id,
            user_id: self.user_id,
            token: self.token.clone(),
            device_type: self.device_type.clone(),
            created_at: self.created_at,
            updated_at: self.updated_at,
        }
    }
}

/// Payload for registering a device token.
pub struct CreateDeviceToken {
    pub user_id: u64,
    pub token: String,
    pub device_type: String,
}

impl Clone for CreateDeviceToken {
    fn clone(&self) -> (r: Self)
        ensures
            r == *self,
    {
        CreateDeviceToken {
            user_id: self.user_id,
            token: self.token.clone(),
            device_type: self.device_type.clone(),
        }
    }
}

} // verus!
