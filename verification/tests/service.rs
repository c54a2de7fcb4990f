use link_with_mentor::service::{
    MyLinkWithMentor, ServiceError, UserIdentifier, CreateSessionRequest, SendNotificationRequest,
};
use link_with_mentor::rate_limit::RateLimiter;
use link_with_mentor::store::Store;
use link_with_mentor::models::{CreateUser, CreateDeviceToken};
use link_with_mentor::datetime::parse_datetime;

fn service(max_requests: usize, window_millis: u64) -> MyLinkWithMentor {
    MyLinkWithMentor::new(RateLimiter::new(max_requests, window_millis))
}

fn sample_now() -> link_with_mentor::datetime::DateTime {
    parse_datetime("2025-01-02 03:04:05").unwrap()
}

fn user_request(uid: &str, email: &str) -> CreateUser {
    CreateUser {
        firebase_uid: uid.to_string(),
        email: email.to_string(),
        display_name: None,
        photo_url: None,
        role: None,
    }
}

#[test]
fn create_user_then_get_by_uid_returns_the_same_row() {
    let mut svc = service(100, 60_000);
    let mut store = Store::new();
    let now = sample_now();

    let created = svc
        .create_user(&mut store, &user_request("u1", "u1@x.com"), 0, now)
        .unwrap();

    let fetched = svc
        .get_user(&store, &Some(UserIdentifier::FirebaseUid("u1".to_string())))
        .unwrap();
    assert_eq!(fetched.id, created.id);
    assert_eq!(fetched.email, "u1@x.com");
    assert_eq!(fetched.role, "user");
}

#[test]
fn ping_echoes_the_message() {
    let mut svc = service(100, 60_000);
    let reply = svc.ping("hello");
    assert_eq!(reply.message, "Pong: hello");
    let snapshot = svc.state.metrics.get_snapshot();
    assert_eq!(snapshot.total_requests, 1);
    assert_eq!(snapshot.successful_requests, 1);
}

#[test]
fn get_user_without_identifier_is_invalid_argument() {
    let mut svc = service(100, 60_000);
    let store = Store::new();
    assert!(matches!(svc.get_user(&store, &None), Err(ServiceError::InvalidArgument)));
    assert_eq!(svc.state.metrics.get_snapshot().failed_requests, 1);
}

#[test]
fn get_unknown_user_is_not_found() {
    let mut svc = service(100, 60_000);
    let store = Store::new();
    assert!(matches!(
        svc.get_user(&store, &Some(UserIdentifier::UserId(7))),
        Err(ServiceError::NotFound)
    ));
}

#[test]
fn create_session_defaults_duration_and_status() {
    let mut svc = service(100, 60_000);
    let mut store = Store::new();
    let req = CreateSessionRequest {
        user_id: 1,
        mentor_id: 2,
        title: "intro".to_string(),
        description: None,
        scheduled_at: "2025-12-01 10:00:00".to_string(),
        duration_minutes: None,
        meeting_link: None,
    };

    let resp = svc.create_session(&mut store, &req, sample_now()).unwrap();
    assert_eq!(resp.duration_minutes, 60);
    assert_eq!(resp.status, "scheduled");
    assert_eq!(resp.scheduled_at, "2025-12-01 10:00:00");
}

#[test]
fn create_session_rejects_a_malformed_time() {
    let mut svc = service(100, 60_000);
    let mut store = Store::new();
    let req = CreateSessionRequest {
        user_id: 1,
        mentor_id: 2,
        title: "intro".to_string(),
        description: None,
        scheduled_at: "2025/12/01 10:00".to_string(),
        duration_minutes: None,
        meeting_link: None,
    };

    assert!(matches!(
        svc.create_session(&mut store, &req, sample_now()),
        Err(ServiceError::InvalidArgument)
    ));
    assert_eq!(store.sessions.len(), 0);
}

#[test]
fn sessions_list_newest_scheduled_first() {
    let mut svc = service(100, 60_000);
    let mut store = Store::new();
    for scheduled in ["2025-03-01 09:00:00", "2025-05-01 09:00:00", "2025-04-01 09:00:00"] {
        let req = CreateSessionRequest {
            user_id: 1,
            mentor_id: 2,
            title: "s".to_string(),
            description: None,
            scheduled_at: scheduled.to_string(),
            duration_minutes: Some(30),
            meeting_link: None,
        };
        svc.create_session(&mut store, &req, sample_now()).unwrap();
    }

    let listed = svc.get_user_sessions(&store, 1).unwrap().sessions;
    assert_eq!(listed.len(), 3);
    assert_eq!(listed[0].scheduled_at, "2025-05-01 09:00:00");
    assert_eq!(listed[1].scheduled_at, "2025-04-01 09:00:00");
    assert_eq!(listed[2].scheduled_at, "2025-03-01 09:00:00");
}

#[test]
fn register_device_token_twice_stores_one_row() {
    let mut svc = service(100, 60_000);
    let mut store = Store::new();
    let req = CreateDeviceToken {
        user_id: 1,
        token: "tok-1".to_string(),
        device_type: "android".to_string(),
    };

    svc.register_device_token(&mut store, &req, sample_now()).unwrap();
    svc.register_device_token(&mut store, &req, sample_now()).unwrap();

    assert_eq!(store.device_tokens.len(), 1);
    assert_eq!(store.device_tokens[0].token, "tok-1");
}

#[test]
fn over_limit_create_user_is_rejected_and_creates_no_row() {
    let mut svc = service(100, 60_000);
    let mut store = Store::new();
    let now = sample_now();

    for _ in 0..100 {
        assert!(svc
            .create_user(&mut store, &user_request("same-uid", "x@x.com"), 10, now)
            .is_ok());
    }
    // The 101st call for the same external identity within the window.
    let outcome = svc.create_user(&mut store, &user_request("same-uid", "x@x.com"), 20, now);
    assert!(matches!(outcome, Err(ServiceError::ResourceExhausted)));
    assert_eq!(store.users.len(), 100);
}

#[test]
fn notification_without_device_tokens_still_succeeds() {
    let mut svc = service(100, 60_000);
    let mut store = Store::new();
    let req = SendNotificationRequest {
        user_id: 5,
        title: "hi".to_string(),
        body: "there".to_string(),
        notification_type: "standard".to_string(),
        data: None,
    };

    let (result, deliveries) = svc.send_notification(&mut store, &req, sample_now());
    let resp = result.unwrap();
    assert_eq!(store.notifications.len(), 1);
    assert_eq!(resp.user_id, 5);
    assert!(!resp.is_read);
    assert!(deliveries.is_empty());
}

#[test]
fn notification_fans_out_to_each_registered_token() {
    let mut svc = service(100, 60_000);
    let mut store = Store::new();
    for token in ["tok-a", "tok-b"] {
        let reg = CreateDeviceToken {
            user_id: 5,
            token: token.to_string(),
            device_type: "ios".to_string(),
        };
        svc.register_device_token(&mut store, &reg, sample_now()).unwrap();
    }
    let req = SendNotificationRequest {
        user_id: 5,
        title: "hi".to_string(),
        body: "there".to_string(),
        notification_type: "standard".to_string(),
        data: None,
    };

    let (result, deliveries) = svc.send_notification(&mut store, &req, sample_now());
    assert!(result.is_ok());
    assert_eq!(deliveries.len(), 2);
    assert_eq!(deliveries[0].token, "tok-a");
    assert_eq!(deliveries[1].token, "tok-b");
    assert_eq!(
        deliveries[0].payload,
        "{\"message\":{\"token\":\"tok-a\",\"notification\":{\"title\":\"hi\",\"body\":\"there\"}}}"
    );
}

#[test]
fn mark_read_hides_the_notification_and_is_idempotent() {
    let mut svc = service(100, 60_000);
    let mut store = Store::new();
    let req = SendNotificationRequest {
        user_id: 5,
        title: "hi".to_string(),
        body: "there".to_string(),
        notification_type: "standard".to_string(),
        data: None,
    };
    let (result, _) = svc.send_notification(&mut store, &req, sample_now());
    let id = result.unwrap().id;

    let unread = svc.get_unread_notifications(&store, 5).unwrap();
    assert_eq!(unread.notifications.len(), 1);

    assert!(svc.mark_notification_read(&mut store, id).is_ok());
    assert!(svc.mark_notification_read(&mut store, id).is_ok());

    let unread_after = svc.get_unread_notifications(&store, 5).unwrap();
    assert_eq!(unread_after.notifications.len(), 0);
}

#[test]
fn unread_notifications_come_newest_created_first() {
    let mut svc = service(100, 60_000);
    let mut store = Store::new();
    // Stored out of creation order on purpose: the middle row carries the
    // newest creation time.
    for (title, created) in [
        ("middle", "2025-01-02 10:00:00"),
        ("newest", "2025-01-02 12:00:00"),
        ("oldest", "2025-01-02 08:00:00"),
    ] {
        let req = SendNotificationRequest {
            user_id: 5,
            title: title.to_string(),
            body: "b".to_string(),
            notification_type: "standard".to_string(),
            data: None,
        };
        svc.send_notification(&mut store, &req, parse_datetime(created).unwrap());
    }

    let unread = svc.get_unread_notifications(&store, 5).unwrap().notifications;
    assert_eq!(unread.len(), 3);
    assert_eq!(unread[0].title, "newest");
    assert_eq!(unread[1].title, "middle");
    assert_eq!(unread[2].title, "oldest");
}

#[test]
fn error_messages_are_fixed_per_category() {
    assert_eq!(
        ServiceError::ResourceExhausted.message(),
        "Rate limit exceeded. Please try again later."
    );
    assert_eq!(ServiceError::PermissionDenied.message(), "Insufficient permissions");
    assert_eq!(ServiceError::Internal.message(), "internal error");
}
