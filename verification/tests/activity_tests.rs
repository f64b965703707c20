//! Activity creation, member records, updates and listings.

use zvms::ids::{Oid, StoredId};
use zvms::models::activities::{Activity, ActivityStatus, ActivityType};
use zvms::models::attendances::{ActivityMember, AttendanceMode, AttendanceStatus};
use zvms::models::groups::{Group, GroupPermission, GroupType};
use zvms::models::users::User;
use zvms::routers::activities::insert::{creation_status, insert_activity};
use zvms::routers::activities::members::{
    insert_member_into_activity, read_member, update_member_status, UpdateActivityMemberStatus,
};
use zvms::routers::activities::read::{read_all, read_one, ReadActivityQuery};
use zvms::routers::activities::remove::remove_activity;
use zvms::routers::activities::update::{
    update_activity_description, update_activity_name, UpdateActivityDescription,
    UpdateActivityName,
};
use zvms::utils::jwt::{TokenType, UserData};
use zvms::utils::same_class::validate_same_class;

fn oid(n: u64) -> Oid {
    Oid { hi: n, lo: 0 }
}

fn user_with(perms: Vec<GroupPermission>, id: Oid) -> UserData {
    UserData { id, perms, term: TokenType::ShortTerm }
}

fn member(id: Oid, status: AttendanceStatus, mode: AttendanceMode, duration: u64) -> ActivityMember {
    ActivityMember {
        _id: StoredId::Typed(id),
        status,
        impression: None,
        duration,
        mode,
        history: None,
        images: None,
    }
}

fn activity(id: Oid, name: &str, creator: Oid, members: Vec<ActivityMember>) -> Activity {
    Activity {
        _id: id,
        activity_type: ActivityType::Social,
        name: name.to_string(),
        description: None,
        date: 0,
        created_at: 0,
        updated_at: 0,
        creator,
        status: ActivityStatus::Effective,
        members: Some(members),
        location: None,
        category: None,
    }
}

#[test]
fn creation_status_table() {
    let admin = vec![GroupPermission::Admin];
    let department = vec![GroupPermission::Department];
    let secretary = vec![GroupPermission::Secretary];
    let student = vec![GroupPermission::Student];
    let types = [
        ActivityType::Specified,
        ActivityType::Social,
        ActivityType::Scale,
        ActivityType::Special,
    ];
    for t in types {
        assert_eq!(creation_status(&admin, t), Some(ActivityStatus::Effective));
    }
    assert_eq!(creation_status(&department, ActivityType::Special), Some(ActivityStatus::Pending));
    assert_eq!(
        creation_status(&department, ActivityType::Specified),
        Some(ActivityStatus::Effective),
    );
    assert_eq!(creation_status(&department, ActivityType::Social), Some(ActivityStatus::Effective));
    assert_eq!(creation_status(&department, ActivityType::Scale), Some(ActivityStatus::Effective));
    assert_eq!(creation_status(&secretary, ActivityType::Specified), Some(ActivityStatus::Pending));
    assert_eq!(creation_status(&secretary, ActivityType::Special), None);
    assert_eq!(creation_status(&secretary, ActivityType::Social), Some(ActivityStatus::Effective));
    assert_eq!(creation_status(&secretary, ActivityType::Scale), Some(ActivityStatus::Effective));
    assert_eq!(creation_status(&student, ActivityType::Social), Some(ActivityStatus::Pending));
    assert_eq!(creation_status(&student, ActivityType::Scale), Some(ActivityStatus::Pending));
    assert_eq!(creation_status(&student, ActivityType::Specified), None);
    assert_eq!(creation_status(&student, ActivityType::Special), None);
}

#[test]
fn insert_activity_sets_status_and_renews_id() {
    let admin = user_with(vec![GroupPermission::Admin], oid(1));
    let mut a = activity(oid(10), "cleanup", oid(1), vec![]);
    a.status = ActivityStatus::Pending;
    let fresh = oid(99);
    let created = insert_activity(&admin, None, a.clone(), fresh).expect("created");
    assert_eq!(created.status, ActivityStatus::Effective);
    assert_eq!(created._id, fresh);
    let kept = insert_activity(&admin, Some(false), a, fresh).expect("created");
    assert_eq!(kept._id, oid(10));
}

#[test]
fn student_special_activity_is_forbidden() {
    let student = user_with(vec![GroupPermission::Student], oid(1));
    let mut a = activity(oid(10), "import", oid(1), vec![]);
    a.activity_type = ActivityType::Special;
    let e = insert_activity(&student, None, a, oid(99)).unwrap_err();
    assert_eq!(e.code, 403);
    assert_eq!(e.message, "Permission denied".to_string());
}

#[test]
fn duplicate_member_insert_conflicts() {
    let admin = user_with(vec![GroupPermission::Admin], oid(1));
    let m = member(oid(7), AttendanceStatus::Draft, AttendanceMode::OnCampus, 0);
    let a = activity(oid(10), "cleanup", oid(1), vec![]);
    let a = insert_member_into_activity(&admin, a, m.clone()).expect("first insert");
    assert_eq!(a.members.as_ref().unwrap().len(), 1);
    let e = insert_member_into_activity(&admin, a, m).unwrap_err();
    assert_eq!(e.code, 400);
    assert_eq!(e.message, "Member already exists".to_string());
}

#[test]
fn duplicate_member_matches_either_stored_form() {
    let admin = user_with(vec![GroupPermission::Admin], oid(1));
    let typed = member(oid(7), AttendanceStatus::Draft, AttendanceMode::OnCampus, 0);
    let mut text = typed.clone();
    text._id = StoredId::Text(oid(7));
    let a = activity(oid(10), "cleanup", oid(1), vec![typed]);
    let e = insert_member_into_activity(&admin, a, text).unwrap_err();
    assert_eq!(e.code, 400);
}

#[test]
fn gate_governs_even_duplicate_inserts() {
    let student = user_with(vec![GroupPermission::Student], oid(1));
    let m = member(oid(7), AttendanceStatus::Draft, AttendanceMode::OnCampus, 0);
    let a = activity(oid(10), "cleanup", oid(1), vec![m.clone()]);
    let e = insert_member_into_activity(&student, a, m).unwrap_err();
    assert_eq!(e.code, 403);
    assert_eq!(e.message, "Permission denied".to_string());
}

#[test]
fn member_insert_needs_privilege() {
    let student = user_with(vec![GroupPermission::Student], oid(1));
    let m = member(oid(7), AttendanceStatus::Draft, AttendanceMode::OnCampus, 0);
    let a = activity(oid(10), "cleanup", oid(1), vec![]);
    let e = insert_member_into_activity(&student, a, m).unwrap_err();
    assert_eq!(e.code, 403);
}

#[test]
fn secretary_needs_shared_class_to_read_member() {
    let secretary = user_with(vec![GroupPermission::Secretary], oid(2));
    let m = member(oid(7), AttendanceStatus::Effective, AttendanceMode::OnCampus, 4);
    let a = activity(oid(10), "cleanup", oid(1), vec![m]);
    let e = read_member(&secretary, a, oid(7), Some(false)).unwrap_err();
    assert_eq!(e.code, 403);
    assert_eq!(e.message, "Permission denied".to_string());
}

#[test]
fn secretary_with_shared_class_reads_member() {
    let secretary = user_with(vec![GroupPermission::Secretary], oid(2));
    let m = member(oid(7), AttendanceStatus::Effective, AttendanceMode::OnCampus, 4);
    let a = activity(oid(10), "cleanup", oid(1), vec![m.clone()]);
    let got = read_member(&secretary, a, oid(7), Some(true)).expect("read");
    assert_eq!(got, m);
}

#[test]
fn member_reads_own_record() {
    let student = user_with(vec![GroupPermission::Student], oid(7));
    let m = member(oid(7), AttendanceStatus::Draft, AttendanceMode::OnCampus, 4);
    let a = activity(oid(10), "cleanup", oid(1), vec![m.clone()]);
    let got = read_member(&student, a, oid(7), None).expect("read");
    assert_eq!(got, m);
}

#[test]
fn stranger_cannot_read_member() {
    let student = user_with(vec![GroupPermission::Student], oid(8));
    let m = member(oid(7), AttendanceStatus::Draft, AttendanceMode::OnCampus, 4);
    let a = activity(oid(10), "cleanup", oid(1), vec![m]);
    let e = read_member(&student, a, oid(7), None).unwrap_err();
    assert_eq!(e.code, 403);
}

#[test]
fn shared_class_resolution() {
    let class = Group {
        _id: oid(40),
        name: "class one".to_string(),
        description: None,
        permissions: vec![GroupPermission::Student],
        group_type: GroupType::Class,
    };
    let other = Group {
        _id: oid(41),
        name: "club".to_string(),
        description: None,
        permissions: vec![GroupPermission::Student],
        group_type: GroupType::Group,
    };
    let groups = vec![class, other];
    let u1 = User {
        _id: oid(1),
        id: "1".to_string(),
        name: "A".to_string(),
        group: vec![oid(40)],
        password: String::new(),
    };
    let u2 = User { _id: oid(2), group: vec![oid(40), oid(41)], ..u1.clone() };
    let u3 = User { _id: oid(3), group: vec![oid(41)], ..u1.clone() };
    assert!(validate_same_class(&u1, &u2, &groups));
    // A shared group that is not a class group does not count.
    assert!(!validate_same_class(&u2, &u3, &groups));
    assert!(!validate_same_class(&u1, &u3, &groups));
}

#[test]
fn terminal_statuses_refuse_every_transition() {
    let update = UpdateActivityMemberStatus { status: AttendanceStatus::Effective, duration: Some(9) };
    let roles: [Vec<GroupPermission>; 5] = [
        vec![GroupPermission::Admin],
        vec![GroupPermission::Auditor],
        vec![GroupPermission::Department],
        vec![GroupPermission::Secretary],
        vec![GroupPermission::Student],
    ];
    for cur in [AttendanceStatus::Effective, AttendanceStatus::Refused] {
        for perms in roles.iter() {
            // Including the member themself.
            let requester = user_with(perms.clone(), oid(7));
            let m = member(oid(7), cur, AttendanceMode::OnCampus, 4);
            let a = activity(oid(10), "cleanup", oid(1), vec![m]);
            let e = update_member_status(&requester, a, oid(7), &update).unwrap_err();
            assert_eq!(e.code, 403);
            assert_eq!(e.message, "Cannot update member duration".to_string());
        }
    }
}

#[test]
fn auditor_decides_pending_member() {
    let auditor = user_with(vec![GroupPermission::Auditor], oid(2));
    let m = member(oid(7), AttendanceStatus::Pending, AttendanceMode::OnCampus, 4);
    let a = activity(oid(10), "cleanup", oid(1), vec![m]);
    let update = UpdateActivityMemberStatus { status: AttendanceStatus::Effective, duration: Some(6) };
    let a = update_member_status(&auditor, a, oid(7), &update).expect("update");
    let ms = a.members.unwrap();
    assert_eq!(ms[0].status, AttendanceStatus::Effective);
    assert_eq!(ms[0].duration, 6);
}

#[test]
fn omitted_duration_is_kept() {
    let admin = user_with(vec![GroupPermission::Admin], oid(2));
    let m = member(oid(7), AttendanceStatus::Pending, AttendanceMode::OnCampus, 4);
    let a = activity(oid(10), "cleanup", oid(1), vec![m]);
    let update = UpdateActivityMemberStatus { status: AttendanceStatus::Refused, duration: None };
    let a = update_member_status(&admin, a, oid(7), &update).expect("update");
    assert_eq!(a.members.unwrap()[0].duration, 4);
}

#[test]
fn student_cannot_decide_pending_member() {
    let student = user_with(vec![GroupPermission::Student], oid(7));
    let m = member(oid(7), AttendanceStatus::Pending, AttendanceMode::OnCampus, 4);
    let a = activity(oid(10), "cleanup", oid(1), vec![m]);
    let update = UpdateActivityMemberStatus { status: AttendanceStatus::Effective, duration: None };
    let e = update_member_status(&student, a, oid(7), &update).unwrap_err();
    assert_eq!(e.code, 403);
}

#[test]
fn member_updates_own_draft() {
    let student = user_with(vec![GroupPermission::Student], oid(7));
    let m = member(oid(7), AttendanceStatus::Draft, AttendanceMode::OnCampus, 0);
    let a = activity(oid(10), "cleanup", oid(1), vec![m]);
    let update = UpdateActivityMemberStatus { status: AttendanceStatus::Pending, duration: Some(2) };
    let a = update_member_status(&student, a, oid(7), &update).expect("update");
    let ms = a.members.unwrap();
    assert_eq!(ms[0].status, AttendanceStatus::Pending);
    assert_eq!(ms[0].duration, 2);
}

#[test]
fn stranger_cannot_update_draft() {
    let other = user_with(vec![GroupPermission::Student], oid(8));
    let m = member(oid(7), AttendanceStatus::Draft, AttendanceMode::OnCampus, 0);
    let a = activity(oid(10), "cleanup", oid(1), vec![m]);
    let update = UpdateActivityMemberStatus { status: AttendanceStatus::Pending, duration: None };
    let e = update_member_status(&other, a, oid(7), &update).unwrap_err();
    assert_eq!(e.code, 403);
}

#[test]
fn missing_member_is_not_found() {
    let admin = user_with(vec![GroupPermission::Admin], oid(2));
    let a = activity(oid(10), "cleanup", oid(1), vec![]);
    let update = UpdateActivityMemberStatus { status: AttendanceStatus::Effective, duration: None };
    let e = update_member_status(&admin, a, oid(7), &update).unwrap_err();
    assert_eq!(e.code, 404);
}

#[test]
fn remove_activity_rules() {
    let admin = user_with(vec![GroupPermission::Admin], oid(2));
    let creator = user_with(vec![GroupPermission::Student], oid(1));
    let stranger = user_with(vec![GroupPermission::Student], oid(3));
    let a = activity(oid(10), "cleanup", oid(1), vec![]);
    assert!(remove_activity(&admin, Some(&a)).is_ok());
    assert!(remove_activity(&creator, Some(&a)).is_ok());
    let e = remove_activity(&stranger, Some(&a)).unwrap_err();
    assert_eq!(e.code, 403);
    let e = remove_activity(&admin, None).unwrap_err();
    assert_eq!(e.code, 404);
}

#[test]
fn update_activity_name_rules() {
    let department = user_with(vec![GroupPermission::Department], oid(2));
    let stranger = user_with(vec![GroupPermission::Student], oid(3));
    let a = activity(oid(10), "old name", oid(1), vec![]);
    let renamed = update_activity_name(
        &department,
        a.clone(),
        UpdateActivityName { name: "new name".to_string() },
    )
    .expect("rename");
    assert_eq!(renamed.name, "new name".to_string());
    let e = update_activity_name(&stranger, a, UpdateActivityName { name: "x".to_string() })
        .unwrap_err();
    assert_eq!(e.code, 403);
}

#[test]
fn update_activity_description_rules() {
    let creator = user_with(vec![GroupPermission::Student], oid(1));
    let a = activity(oid(10), "cleanup", oid(1), vec![]);
    let updated = update_activity_description(
        &creator,
        a,
        UpdateActivityDescription { description: "details".to_string() },
    )
    .expect("update");
    assert_eq!(updated.description, Some("details".to_string()));
}

#[test]
fn read_one_strips_member_details() {
    let mut m = member(oid(7), AttendanceStatus::Pending, AttendanceMode::OnCampus, 4);
    m.impression = Some("did things".to_string());
    m.images = Some(vec!["img".to_string()]);
    let a = activity(oid(10), "cleanup", oid(1), vec![m]);
    let got = read_one(Some(a)).expect("read");
    let ms = got.members.unwrap();
    assert_eq!(ms.len(), 1);
    assert_eq!(ms[0].impression, None);
    assert_eq!(ms[0].images, None);
    assert_eq!(ms[0].duration, 4);
    let e = read_one(None).unwrap_err();
    assert_eq!(e.code, 404);
}

#[test]
fn listing_filters_pages_and_projects() {
    let admin = user_with(vec![GroupPermission::Admin], oid(2));
    let m_pending = member(oid(7), AttendanceStatus::Pending, AttendanceMode::OnCampus, 4);
    let m_done = member(oid(8), AttendanceStatus::Effective, AttendanceMode::OnCampus, 4);
    let mut acts = Vec::new();
    for i in 0..3u64 {
        acts.push(activity(
            oid(100 + i),
            &format!("Cleanup {}", i),
            oid(1),
            vec![m_pending.clone(), m_done.clone()],
        ));
    }
    acts.push(activity(oid(200), "Gardening", oid(1), vec![]));
    let q = ReadActivityQuery { page: Some(1), perpage: Some(2), query: Some("clean".to_string()) };
    let resp = read_all(&admin, &q, &acts).expect("list");
    assert_eq!(resp.metadata.unwrap().size, 3);
    assert_eq!(resp.data.len(), 2);
    assert_eq!(resp.data[0].name, "Cleanup 0".to_string());
    let ms = resp.data[0].members.as_ref().unwrap();
    assert_eq!(ms.len(), 1);
    assert_eq!(ms[0].status, AttendanceStatus::Pending);
    let q2 = ReadActivityQuery { page: Some(2), perpage: Some(2), query: Some("CLEAN".to_string()) };
    let resp2 = read_all(&admin, &q2, &acts).expect("list");
    assert_eq!(resp2.data.len(), 1);
    assert_eq!(resp2.data[0].name, "Cleanup 2".to_string());
}

#[test]
fn listing_empties_members_for_department() {
    let department = user_with(vec![GroupPermission::Department], oid(2));
    let m = member(oid(7), AttendanceStatus::Pending, AttendanceMode::OnCampus, 4);
    let acts = vec![activity(oid(100), "Cleanup", oid(1), vec![m])];
    let q = ReadActivityQuery { page: None, perpage: None, query: None };
    let resp = read_all(&department, &q, &acts).expect("list");
    assert_eq!(resp.data[0].members.as_ref().unwrap().len(), 0);
}

#[test]
fn listing_is_role_gated() {
    let student = user_with(vec![GroupPermission::Student], oid(2));
    let q = ReadActivityQuery { page: None, perpage: None, query: None };
    let e = read_all(&student, &q, &Vec::new()).unwrap_err();
    assert_eq!(e.code, 403);
}
