use aditya_crm::auth::{bearer_token, registration_role, require_admin, AuthUser, Role};
use aditya_crm::categorize::{category_filter, classify, keyword_regex_fragment, matches_keyword};
use aditya_crm::error::ApiError;
use aditya_crm::filter::{combine_filters, Cond, Filter, Test};
use aditya_crm::listview::{parse_sort, PageParams, Paginated};
use aditya_crm::oid::{parse_oid, parse_opt_oid, Oid, SYSTEM_USER_ID};
use aditya_crm::renewal::{
    is_valid_transition, plan_status_change, policy_status_for, status_change_activity, status_key, PolicyStatus,
    RenewalStatus, UpdateRenewalStatusInput,
};
use aditya_crm::value::Value;
use aditya_crm::visibility::{needs_team, visibility_filter};

const ALL: [RenewalStatus; 5] = [
    RenewalStatus::Pending,
    RenewalStatus::Contacted,
    RenewalStatus::Renewed,
    RenewalStatus::Lapsed,
    RenewalStatus::Lost,
];

fn oid(last: u8) -> Oid {
    let mut bytes = [0u8; 12];
    bytes[11] = last;
    Oid { bytes }
}

fn message(e: ApiError) -> String {
    match e {
        ApiError::BadRequest(m) => m,
        _ => panic!("expected a 400"),
    }
}

#[test]
fn renewal_moves_follow_the_pipeline() {
    for from in ALL {
        assert!(is_valid_transition(from, from));
        assert!(is_valid_transition(from, RenewalStatus::Pending));
    }
    assert!(is_valid_transition(RenewalStatus::Pending, RenewalStatus::Lost));
    assert!(is_valid_transition(RenewalStatus::Contacted, RenewalStatus::Renewed));
    assert!(!is_valid_transition(RenewalStatus::Renewed, RenewalStatus::Lost));
    assert!(!is_valid_transition(RenewalStatus::Lapsed, RenewalStatus::Contacted));
    assert!(!is_valid_transition(RenewalStatus::Lost, RenewalStatus::Renewed));
}

#[test]
fn a_refused_move_names_both_statuses() {
    let input = UpdateRenewalStatusInput { status: RenewalStatus::Lost, notes: None };
    let err = plan_status_change(RenewalStatus::Renewed, input).err().unwrap();
    assert_eq!(message(err), "cannot move a renewal from Renewed to Lost");
}

#[test]
fn an_allowed_move_plans_its_writes() {
    let input = UpdateRenewalStatusInput { status: RenewalStatus::Contacted, notes: Some("called".to_string()) };
    let c = plan_status_change(RenewalStatus::Pending, input).ok().unwrap();
    assert_eq!(c.status, RenewalStatus::Contacted);
    assert!(c.stamp_last_contacted);
    assert_eq!(c.notes.as_deref(), Some("called"));
    assert_eq!(c.policy_status, PolicyStatus::Active);
    assert!(c.changed);
    let same = plan_status_change(
        RenewalStatus::Lost,
        UpdateRenewalStatusInput { status: RenewalStatus::Lost, notes: None },
    )
    .ok()
    .unwrap();
    assert!(!same.changed);
    assert!(!same.stamp_last_contacted);
}

#[test]
fn policies_mirror_terminal_outcomes() {
    assert_eq!(policy_status_for(RenewalStatus::Renewed), PolicyStatus::Renewed);
    assert_eq!(policy_status_for(RenewalStatus::Lapsed), PolicyStatus::Lapsed);
    assert_eq!(policy_status_for(RenewalStatus::Lost), PolicyStatus::Lost);
    assert_eq!(policy_status_for(RenewalStatus::Pending), PolicyStatus::Active);
    assert_eq!(policy_status_for(RenewalStatus::Contacted), PolicyStatus::Active);
    assert_eq!(status_key(RenewalStatus::Contacted), "contacted");
    assert_eq!(status_change_activity("Asha", "Health", RenewalStatus::Renewed), "moved Asha's Health renewal to Renewed");
}

#[test]
fn policy_types_fall_into_one_bucket() {
    assert_eq!(classify("Family Floater Health"), "Health");
    assert_eq!(classify("MEDICLAIM"), "Health");
    assert_eq!(classify("Term Life"), "Life");
    assert_eq!(classify("ULIP Plan"), "Life");
    assert_eq!(classify("Private Car Package"), "Motor");
    assert_eq!(classify("TW Comprehensive"), "Motor");
    assert_eq!(classify("Fire & Burglary"), "Other");
    assert_eq!(classify("Health cover for car owners"), "Health");
    assert_eq!(classify("Network"), "Other");
}

#[test]
fn short_keywords_match_whole_words_only() {
    let lower: Vec<char> = "tw policy".chars().collect();
    assert!(matches_keyword(&lower, "tw"));
    let inside: Vec<char> = "between".chars().collect();
    assert!(!matches_keyword(&inside, "tw"));
    let carpet: Vec<char> = "carpet".chars().collect();
    assert!(matches_keyword(&carpet, "car"));
    assert_eq!(keyword_regex_fragment("tw"), "\\btw\\b");
    assert_eq!(keyword_regex_fragment("motor"), "motor");
}

#[test]
fn category_filters_are_regex_alternations() {
    match category_filter("HEALTH") {
        Some(Filter::Doc(cs)) => {
            assert_eq!(cs.len(), 1);
            assert_eq!(cs[0].field, "policy_type");
            match &cs[0].test {
                Test::Regex { pattern, negate } => {
                    assert_eq!(pattern, "health|medical|mediclaim|hospital");
                    assert!(!negate);
                },
                _ => panic!("expected a regex"),
            }
        },
        _ => panic!("expected a document"),
    }
    match category_filter("other") {
        Some(Filter::Doc(cs)) => match &cs[0].test {
            Test::Regex { pattern, negate } => {
                assert!(*negate);
                assert!(pattern.ends_with("|auto|\\btw\\b"));
            },
            _ => panic!("expected a regex"),
        },
        _ => panic!("expected a document"),
    }
    assert!(category_filter("travel").is_none());
}

#[test]
fn visibility_scopes_by_role() {
    let admin = AuthUser { user_id: oid(1), role: Role::Admin };
    assert!(visibility_filter(&admin, &None).is_empty());
    assert!(!needs_team(&admin));
    let agent = AuthUser { user_id: oid(2), role: Role::Agent };
    match visibility_filter(&agent, &None) {
        Filter::Doc(cs) => {
            assert_eq!(cs[0].field, "assigned_to");
            match &cs[0].test {
                Test::Eq(Value::ObjectId(o)) => assert_eq!(*o, oid(2)),
                _ => panic!("expected equality"),
            }
        },
        _ => panic!("expected a document"),
    }
    let manager = AuthUser { user_id: oid(3), role: Role::Manager };
    assert!(needs_team(&manager));
    match visibility_filter(&manager, &Some(vec![oid(4), oid(5)])) {
        Filter::Doc(cs) => match &cs[0].test {
            Test::In(vs) => {
                assert_eq!(vs.len(), 3);
                match &vs[2] {
                    Value::ObjectId(o) => assert_eq!(*o, oid(3)),
                    _ => panic!("expected an id"),
                }
            },
            _ => panic!("expected membership"),
        },
        _ => panic!("expected a document"),
    }
    match visibility_filter(&manager, &None) {
        Filter::Doc(cs) => match &cs[0].test {
            Test::In(vs) => assert_eq!(vs.len(), 1),
            _ => panic!("expected membership"),
        },
        _ => panic!("expected a document"),
    }
}

#[test]
fn combining_with_an_empty_filter_keeps_the_other() {
    let scoped = Filter::single(Cond { field: "a".to_string(), test: Test::Eq(Value::Bool(true)) });
    assert!(matches!(combine_filters(Filter::all(), scoped), Filter::Doc(_)));
    let a = Filter::single(Cond { field: "a".to_string(), test: Test::Eq(Value::Bool(true)) });
    let b = Filter::single(Cond { field: "a".to_string(), test: Test::Eq(Value::Bool(false)) });
    assert!(matches!(combine_filters(a, b), Filter::And(_, _)));
    assert!(combine_filters(Filter::all(), Filter::all()).is_empty());
}

#[test]
fn only_admins_pass_the_admin_gate() {
    assert!(require_admin(&AuthUser { user_id: oid(1), role: Role::Admin }).is_ok());
    assert!(matches!(require_admin(&AuthUser { user_id: oid(1), role: Role::Agent }), Err(ApiError::Forbidden)));
    assert!(matches!(require_admin(&AuthUser { user_id: oid(1), role: Role::Manager }), Err(ApiError::Forbidden)));
}

#[test]
fn first_user_bootstraps_as_admin() {
    assert_eq!(registration_role(true, None, Some(Role::Agent)).ok(), Some(Role::Admin));
    assert!(matches!(registration_role(false, None, None), Err(ApiError::Unauthorized)));
    let agent = AuthUser { user_id: oid(2), role: Role::Agent };
    assert!(matches!(registration_role(false, Some(agent), None), Err(ApiError::Forbidden)));
    let admin = AuthUser { user_id: oid(1), role: Role::Admin };
    assert_eq!(registration_role(false, Some(admin), None).ok(), Some(Role::Agent));
    assert_eq!(registration_role(false, Some(admin), Some(Role::Manager)).ok(), Some(Role::Manager));
}

#[test]
fn bearer_tokens_are_read_from_the_header() {
    assert_eq!(bearer_token("Bearer abc.def"), Some("abc.def".to_string()));
    assert_eq!(bearer_token("Bearer "), Some(String::new()));
    assert_eq!(bearer_token("bearer abc"), None);
    assert_eq!(bearer_token("Token abc"), None);
}

#[test]
fn ids_are_24_hex_digits() {
    let o = parse_oid("0123456789abcdefABCDEF01").ok().unwrap();
    assert_eq!(o.to_hex(), "0123456789abcdefabcdef01");
    assert_eq!(parse_oid(&o.to_hex()).ok().unwrap(), o);
    assert_eq!(message(parse_oid("xyz").err().unwrap()), "invalid id");
    assert!(parse_oid("0123456789abcdef0123456").is_err());
    assert!(parse_oid("0123456789abcdef012345678").is_err());
    assert_eq!(parse_oid(SYSTEM_USER_ID).ok().unwrap(), oid(1));
    assert!(parse_opt_oid(&None).ok().unwrap().is_none());
    assert!(parse_opt_oid(&Some("nope".to_string())).is_err());
}

#[test]
fn sorting_is_whitelisted() {
    let allowed = ["due_date", "premium_due"];
    let s = parse_sort(&Some("-premium_due".to_string()), &allowed, "due_date").ok().unwrap();
    assert_eq!((s.field.as_str(), s.direction), ("premium_due", -1));
    let d = parse_sort(&None, &allowed, "due_date").ok().unwrap();
    assert_eq!((d.field.as_str(), d.direction), ("due_date", 1));
    let err = parse_sort(&Some("password".to_string()), &allowed, "due_date").err().unwrap();
    assert_eq!(message(err), "cannot sort by 'password'");
}

#[test]
fn pages_are_clamped() {
    let p = PageParams { page: Some(0), page_size: Some(1000), sort: None };
    assert!(p.fits());
    let w = p.window();
    assert_eq!((w.page, w.page_size, w.skip), (1, 200, 0));
    let q = PageParams { page: Some(3), page_size: None, sort: None };
    let w2 = q.window();
    assert_eq!((w2.page, w2.page_size, w2.skip), (3, 25, 50));
    let page = Paginated::new(vec![1, 2], 52, &w2);
    assert_eq!((page.total, page.page, page.page_size, page.data.len()), (52, 3, 25, 2));
    let huge = PageParams { page: Some(u64::MAX), page_size: Some(200), sort: None };
    assert!(!huge.fits());
}

use aditya_crm::dashboard::monthly_filters;

fn scoped_to(f: &Filter, owner: Oid) -> bool {
    match f {
        Filter::And(_, scope) => match &**scope {
            Filter::Doc(cs) => cs[0].field == "assigned_to" && matches!(&cs[0].test, Test::Eq(Value::ObjectId(o)) if *o == owner),
            _ => false,
        },
        _ => false,
    }
}

#[test]
fn the_monthly_dashboard_reads_only_what_the_caller_sees() {
    let agent = AuthUser { user_id: oid(2), role: Role::Agent };
    let (renewals, policies) = monthly_filters(10, 20, visibility_filter(&agent, &None));
    assert!(scoped_to(&renewals, oid(2)));
    assert!(scoped_to(&policies, oid(2)));
    match &policies {
        Filter::And(window, _) => match &**window {
            Filter::Doc(cs) => {
                let fields: Vec<&str> = cs.iter().map(|c| c.field.as_str()).collect();
                assert_eq!(fields, vec!["previous_policy_id", "created_at"]);
            },
            _ => panic!("expected a document"),
        },
        _ => panic!("expected a scoped filter"),
    }
    let admin = AuthUser { user_id: oid(1), role: Role::Admin };
    let (all_renewals, _) = monthly_filters(10, 20, visibility_filter(&admin, &None));
    assert!(matches!(all_renewals, Filter::Doc(ref cs) if cs.len() == 1 && cs[0].field == "due_date"));
}

#[test]
fn a_copied_filter_is_the_same_filter() {
    let manager = AuthUser { user_id: oid(3), role: Role::Manager };
    let f = combine_filters(
        Filter::single(Cond { field: "a".to_string(), test: Test::Eq(Value::Bool(true)) }),
        visibility_filter(&manager, &Some(vec![oid(4)])),
    );
    let g = f.duplicate();
    match (&f, &g) {
        (Filter::And(_, x), Filter::And(_, y)) => match (&**x, &**y) {
            (Filter::Doc(a), Filter::Doc(b)) => match (&a[0].test, &b[0].test) {
                (Test::In(u), Test::In(v)) => assert_eq!(u.len(), v.len()),
                _ => panic!("expected membership"),
            },
            _ => panic!("expected documents"),
        },
        _ => panic!("expected both combined"),
    }
}
