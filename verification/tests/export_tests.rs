//! Export jobs and the per-user time aggregation.

use zvms::ids::{Oid, StoredId, TaskId};
use zvms::models::activities::{Activity, ActivityStatus, ActivityType};
use zvms::models::attendances::{ActivityMember, AttendanceMode, AttendanceStatus};
use zvms::models::exports::{ExportActivityTimesOptions, ExportFormat, TaskStatus};
use zvms::models::groups::GroupPermission;
use zvms::routers::exports::ExportTracker;
use zvms::routers::users::activity::read_user_activities;
use zvms::routers::users::time::{calculate_user_activity_time, UserActivityTime};
use zvms::routers::activities::read::ReadActivityQuery;
use zvms::utils::jwt::{TokenType, UserData};

fn oid(n: u64) -> Oid {
    Oid { hi: n, lo: 0 }
}

fn user_with(perms: Vec<GroupPermission>, id: Oid) -> UserData {
    UserData { id, perms, term: TokenType::ShortTerm }
}

fn options() -> ExportActivityTimesOptions {
    ExportActivityTimesOptions { start: 0, end: 10, format: ExportFormat::Excel }
}

fn member(id: Oid, mode: AttendanceMode, duration: u64) -> ActivityMember {
    ActivityMember {
        _id: StoredId::Typed(id),
        status: AttendanceStatus::Effective,
        impression: None,
        duration,
        mode,
        history: None,
        images: None,
    }
}

fn activity(id: Oid, name: &str, members: Vec<ActivityMember>) -> Activity {
    Activity {
        _id: id,
        activity_type: ActivityType::Social,
        name: name.to_string(),
        description: None,
        date: 0,
        created_at: 0,
        updated_at: 0,
        creator: oid(1),
        status: ActivityStatus::Effective,
        members: Some(members),
        location: None,
        category: None,
    }
}

#[test]
fn student_export_is_forbidden_and_tracker_unchanged() {
    let mut tracker = ExportTracker::new();
    let student = user_with(vec![GroupPermission::Student], oid(1));
    let id = TaskId { hi: 1, lo: 2 };
    let e = tracker.export_activity_times(&student, &options(), id, 5).unwrap_err();
    assert_eq!(e.code, 403);
    assert_eq!(tracker.tasks.len(), 0);
    let e = tracker.query_export_status(id).unwrap_err();
    assert_eq!(e.code, 404);
}

#[test]
fn inspector_submits_and_polls() {
    let mut tracker = ExportTracker::new();
    let inspector = user_with(vec![GroupPermission::Inspector], oid(1));
    let id = TaskId { hi: 1, lo: 2 };
    let got = tracker.export_activity_times(&inspector, &options(), id, 5).expect("submit");
    assert_eq!(got, id);
    let task = tracker.query_export_status(id).expect("poll");
    assert_eq!(task.status, TaskStatus::Pending);
    assert_eq!(task.percent, Some(0));
    assert_eq!(task.actioner, oid(1));
    assert_eq!(task.time, 5);
}

#[test]
fn completed_poll_is_idempotent() {
    let mut tracker = ExportTracker::new();
    let admin = user_with(vec![GroupPermission::Admin], oid(1));
    let id = TaskId { hi: 1, lo: 2 };
    tracker.export_activity_times(&admin, &options(), id, 5).expect("submit");
    assert!(tracker.set_processing(id));
    assert!(tracker.complete_task(id, "exports/out.xlsx".to_string()));
    let first = tracker.query_export_status(id).expect("poll").clone();
    let second = tracker.query_export_status(id).expect("poll").clone();
    assert_eq!(first, second);
    assert_eq!(first.status, TaskStatus::Done);
    assert_eq!(first.result, Some("exports/out.xlsx".to_string()));
}

#[test]
fn failed_job_has_no_result() {
    let mut tracker = ExportTracker::new();
    let admin = user_with(vec![GroupPermission::Admin], oid(1));
    let id = TaskId { hi: 1, lo: 2 };
    tracker.export_activity_times(&admin, &options(), id, 5).expect("submit");
    assert!(tracker.set_processing(id));
    assert!(tracker.fail_task(id));
    let task = tracker.query_export_status(id).expect("poll");
    assert_eq!(task.status, TaskStatus::Error);
    assert_eq!(task.result, None);
}

#[test]
fn mutating_one_job_leaves_others_alone() {
    let mut tracker = ExportTracker::new();
    let admin = user_with(vec![GroupPermission::Admin], oid(1));
    let id1 = TaskId { hi: 1, lo: 1 };
    let id2 = TaskId { hi: 2, lo: 2 };
    tracker.export_activity_times(&admin, &options(), id1, 5).expect("submit");
    tracker.export_activity_times(&admin, &options(), id2, 6).expect("submit");
    assert!(tracker.complete_task(id2, "exports/two.xlsx".to_string()));
    let one = tracker.query_export_status(id1).expect("poll");
    assert_eq!(one.status, TaskStatus::Pending);
    assert_eq!(one.time, 5);
}

#[test]
fn resubmitting_an_id_replaces_the_job() {
    let mut tracker = ExportTracker::new();
    let admin = user_with(vec![GroupPermission::Admin], oid(1));
    let id = TaskId { hi: 1, lo: 1 };
    tracker.export_activity_times(&admin, &options(), id, 5).expect("submit");
    assert!(tracker.complete_task(id, "exports/one.xlsx".to_string()));
    tracker.export_activity_times(&admin, &options(), id, 9).expect("submit");
    let task = tracker.query_export_status(id).expect("poll");
    assert_eq!(task.status, TaskStatus::Pending);
    assert_eq!(task.time, 9);
    assert_eq!(tracker.tasks.len(), 1);
}

#[test]
fn missing_job_mutations_change_nothing() {
    let mut tracker = ExportTracker::new();
    let id = TaskId { hi: 1, lo: 1 };
    assert!(!tracker.set_processing(id));
    assert!(!tracker.complete_task(id, "x".to_string()));
    assert!(!tracker.fail_task(id));
    assert_eq!(tracker.tasks.len(), 0);
}

#[test]
fn aggregation_of_absent_user_is_zero() {
    let acts = vec![activity(oid(10), "a", vec![member(oid(8), AttendanceMode::OnCampus, 7)])];
    let t = calculate_user_activity_time(oid(7), &acts).expect("sum");
    assert_eq!(
        t,
        UserActivityTime { on_campus: 0, off_campus: 0, social_practice: 0, total: 0 },
    );
}

#[test]
fn aggregation_sums_by_mode() {
    let acts = vec![
        activity(oid(10), "a", vec![member(oid(7), AttendanceMode::OnCampus, 5)]),
        activity(oid(11), "b", vec![member(oid(7), AttendanceMode::SocialPractice, 3)]),
    ];
    let t = calculate_user_activity_time(oid(7), &acts).expect("sum");
    assert_eq!(
        t,
        UserActivityTime { on_campus: 5, off_campus: 0, social_practice: 3, total: 8 },
    );
}

#[test]
fn aggregation_matches_text_form_identities() {
    let mut m = member(oid(7), AttendanceMode::OffCampus, 2);
    m._id = StoredId::Text(oid(7));
    let acts = vec![activity(oid(10), "a", vec![m, member(oid(7), AttendanceMode::OffCampus, 3)])];
    let t = calculate_user_activity_time(oid(7), &acts).expect("sum");
    assert_eq!(t.off_campus, 5);
    assert_eq!(t.total, 5);
}

#[test]
fn aggregation_overflow_is_reported() {
    let acts = vec![
        activity(oid(10), "a", vec![member(oid(7), AttendanceMode::OnCampus, u64::MAX)]),
        activity(oid(11), "b", vec![member(oid(7), AttendanceMode::OffCampus, 1)]),
    ];
    assert!(calculate_user_activity_time(oid(7), &acts).is_none());
}

#[test]
fn user_listing_narrows_members_and_pages() {
    let admin = user_with(vec![GroupPermission::Admin], oid(2));
    let acts = vec![
        activity(
            oid(10),
            "Cleanup",
            vec![member(oid(7), AttendanceMode::OnCampus, 5), member(oid(8), AttendanceMode::OnCampus, 1)],
        ),
        activity(oid(11), "Gardening", vec![member(oid(8), AttendanceMode::OnCampus, 1)]),
    ];
    let q = ReadActivityQuery { page: None, perpage: None, query: None };
    let resp = read_user_activities(&admin, oid(7), None, &q, acts).expect("list");
    assert_eq!(resp.metadata.unwrap().size, 1);
    assert_eq!(resp.data.len(), 1);
    let ms = resp.data[0].members.as_ref().unwrap();
    assert_eq!(ms.len(), 1);
    assert_eq!(ms[0].duration, 5);
}

#[test]
fn user_listing_is_gated_for_strangers() {
    let stranger = user_with(vec![GroupPermission::Student], oid(9));
    let q = ReadActivityQuery { page: None, perpage: None, query: None };
    let e = read_user_activities(&stranger, oid(7), None, &q, Vec::new()).unwrap_err();
    assert_eq!(e.code, 403);
}

#[test]
fn user_lists_own_activities() {
    let own = user_with(vec![GroupPermission::Student], oid(7));
    let acts = vec![activity(oid(10), "Cleanup", vec![member(oid(7), AttendanceMode::OnCampus, 5)])];
    let q = ReadActivityQuery { page: None, perpage: None, query: None };
    let resp = read_user_activities(&own, oid(7), None, &q, acts).expect("list");
    assert_eq!(resp.data.len(), 1);
}

#[test]
fn secretary_lists_with_shared_class_only() {
    let secretary = user_with(vec![GroupPermission::Secretary], oid(2));
    let acts = vec![activity(oid(10), "Cleanup", vec![member(oid(7), AttendanceMode::OnCampus, 5)])];
    let q = ReadActivityQuery { page: None, perpage: None, query: None };
    let e = read_user_activities(&secretary, oid(7), Some(false), &q, acts.clone()).unwrap_err();
    assert_eq!(e.code, 403);
    let resp = read_user_activities(&secretary, oid(7), Some(true), &q, acts).expect("list");
    assert_eq!(resp.data.len(), 1);
}
