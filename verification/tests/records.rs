use aditya_crm::activities::{manual_activity, new_activity, ActivityIcon, CreateActivityInput, NewActivity};
use aditya_crm::assistant::{failure_reply, forwarded_token};
use aditya_crm::config::Config;
use aditya_crm::customers::{
    customer_list_filter, customer_result, customer_update, new_customer, policy_result, search_term, CreateCustomerInput,
    ListCustomersQuery, SearchQuery, UpdateCustomerInput,
};
use aditya_crm::error::ApiError;
use aditya_crm::filter::{Filter, Test};
use aditya_crm::oid::Oid;
use aditya_crm::policies::{
    follow_up_activity, new_policy, policy_created_activity, policy_insert_error, policy_updates, renewal_for_policy,
    CreatePolicyInput, PolicyResponse, UpdatePolicyInput,
};
use aditya_crm::records::{
    claim_status_set, new_claim, new_lead, new_payment, payment_status_set, lead_update_set, ClaimStatus, CreateClaimInput,
    CreateLeadInput, CreatePaymentInput, LeadStage, PaymentStatus, UpdateLeadInput,
};
use aditya_crm::renewal::{PolicyStatus, RenewalStatus};
use aditya_crm::staff::{
    new_team, new_user, parse_ids, team_update, user_insert_error, user_update_set, CreateTeamInput, RegisterInput,
    UpdateTeamInput, UpdateUserInput,
};
use aditya_crm::auth::Role;
use aditya_crm::value::{Field, Float, Value};
use aditya_crm::workflow::FollowUpType;

const A: &str = "aaaaaaaaaaaaaaaaaaaaaaaa";
const B: &str = "bbbbbbbbbbbbbbbbbbbbbbbb";

fn oid(last: u8) -> Oid {
    let mut bytes = [0u8; 12];
    bytes[11] = last;
    Oid { bytes }
}

fn money(v: f64) -> Float {
    Float { bits: v.to_bits(), text: format!("{v}") }
}

fn message(e: ApiError) -> String {
    match e {
        ApiError::BadRequest(m) => m,
        _ => panic!("expected a 400"),
    }
}

fn keys(fs: &[Field]) -> Vec<String> {
    fs.iter().map(|f| f.key.clone()).collect()
}

fn policy_input(assigned_to: Option<&str>) -> CreatePolicyInput {
    CreatePolicyInput {
        customer_id: A.to_string(),
        insurer_name: "Star Health".to_string(),
        policy_type: "Health".to_string(),
        policy_number: "P-1".to_string(),
        sum_insured: money(500000.0),
        start_date: 1_700_000_000_000,
        end_date: 1_731_536_000_000,
        previous_year_premium: None,
        current_year_premium: money(12000.5),
        previous_policy_id: None,
        assigned_to: assigned_to.map(|s| s.to_string()),
        source_document_id: None,
    }
}

#[test]
fn a_new_policy_is_active_and_owned() {
    let p = new_policy(policy_input(None), oid(7), 99).ok().unwrap();
    assert_eq!(p.status, PolicyStatus::Active);
    assert_eq!(p.assigned_to, oid(7));
    assert_eq!(p.customer_id.to_hex(), A);
    assert_eq!((p.created_at, p.updated_at), (99, 99));
    assert!(p.follow_ups.is_empty());
    let q = new_policy(policy_input(Some(B)), oid(7), 99).ok().unwrap();
    assert_eq!(q.assigned_to.to_hex(), B);
    let mut bad = policy_input(None);
    bad.previous_policy_id = Some("zz".to_string());
    assert_eq!(message(new_policy(bad, oid(7), 99).err().unwrap()), "invalid id");
}

#[test]
fn every_policy_gets_a_pending_renewal_copying_it() {
    let p = new_policy(policy_input(None), oid(7), 99).ok().unwrap();
    let r = renewal_for_policy(&p, oid(9), "Asha".to_string(), 100);
    assert_eq!(r.status, RenewalStatus::Pending);
    assert_eq!(r.reminder_stage, 0);
    assert_eq!(r.due_date, p.end_date);
    assert_eq!(r.premium_due.bits, p.current_year_premium.bits);
    assert_eq!(r.policy_number, "P-1");
    assert_eq!(r.insurer_name, "Star Health");
    assert_eq!(r.assigned_to, p.assigned_to);
    assert_eq!(r.policy_id, oid(9));
    assert!(r.last_contacted_at.is_none());
}

#[test]
fn policy_edits_keep_renewals_and_claims_in_step() {
    let input = UpdatePolicyInput {
        insurer_name: Some("HDFC Ergo".to_string()),
        policy_type: None,
        policy_number: Some("P-2".to_string()),
        sum_insured: Some(money(1.0)),
        start_date: None,
        end_date: Some(5),
        previous_year_premium: None,
        current_year_premium: Some(money(2.0)),
        status: Some(PolicyStatus::Lapsed),
        assigned_to: Some(B.to_string()),
    };
    let u = policy_updates(&input, 42).ok().unwrap();
    assert_eq!(
        keys(&u.policy_set),
        vec!["updated_at", "insurer_name", "policy_number", "sum_insured", "end_date", "current_year_premium", "status", "assigned_to"]
    );
    assert_eq!(keys(&u.renewal_set), vec!["insurer_name", "policy_number", "due_date", "premium_due", "assigned_to"]);
    assert_eq!(keys(&u.claim_set), vec!["insurer_name", "policy_number"]);
    match &u.renewal_set[2].value {
        Value::DateTime(ms) => assert_eq!(*ms, 5),
        _ => panic!("expected the due date"),
    }
    match &u.policy_set[6].value {
        Value::Str(s) => assert_eq!(s, "lapsed"),
        _ => panic!("expected the status"),
    }
    let empty = UpdatePolicyInput {
        insurer_name: None,
        policy_type: None,
        policy_number: None,
        sum_insured: None,
        start_date: None,
        end_date: None,
        previous_year_premium: None,
        current_year_premium: None,
        status: None,
        assigned_to: None,
    };
    let e = policy_updates(&empty, 1).ok().unwrap();
    assert_eq!(keys(&e.policy_set), vec!["updated_at"]);
    assert!(e.renewal_set.is_empty() && e.claim_set.is_empty());
    let bad = UpdatePolicyInput { assigned_to: Some("x".to_string()), ..empty };
    assert_eq!(message(policy_updates(&bad, 1).err().unwrap()), "invalid id");
}

#[test]
fn duplicate_policy_numbers_conflict() {
    match policy_insert_error("E11000 duplicate key error collection") {
        ApiError::Conflict(m) => assert_eq!(m, "a policy with this policy number already exists"),
        _ => panic!("expected a conflict"),
    }
    assert!(matches!(policy_insert_error("connection reset"), ApiError::Database(_)));
    assert_eq!(policy_created_activity("Health", "Asha"), "added a new Health policy for Asha");
    assert_eq!(follow_up_activity(FollowUpType::Whatsapp, &Some("Asha".to_string())), "logged a Whatsapp follow-up on Asha");
    assert_eq!(follow_up_activity(FollowUpType::Call, &None), "logged a Call follow-up on ");
}

#[test]
fn policy_responses_carry_hex_ids() {
    let mut p = new_policy(policy_input(None), oid(7), 99).ok().unwrap();
    p.id = Some(oid(3));
    let r = PolicyResponse::from_policy(p);
    assert_eq!(r.id, "000000000000000000000003");
    assert_eq!(r.assigned_to, "000000000000000000000007");
    assert!(r.previous_policy_id.is_none());
}

#[test]
fn claims_are_settled_only_when_settled() {
    let p = new_policy(policy_input(None), oid(7), 99).ok().unwrap();
    let c = new_claim(
        CreateClaimInput { policy_id: A.to_string(), claim_number: "C-9".to_string(), claim_amount: money(10.0), filed_date: 5 },
        oid(9),
        &p,
        "Asha".to_string(),
        6,
    );
    assert_eq!(c.status, ClaimStatus::Pending);
    assert!(c.settled_at.is_none());
    assert_eq!(c.policy_type, "Health");
    assert_eq!(keys(&claim_status_set(ClaimStatus::Settled, 8)), vec!["status", "settled_at"]);
    assert_eq!(keys(&claim_status_set(ClaimStatus::UnderReview, 8)), vec!["status"]);
    match &claim_status_set(ClaimStatus::UnderReview, 8)[0].value {
        Value::Str(s) => assert_eq!(s, "under_review"),
        _ => panic!("expected the status"),
    }
}

#[test]
fn payments_are_paid_only_when_collected() {
    let p = new_policy(policy_input(None), oid(7), 99).ok().unwrap();
    let input = |status| CreatePaymentInput {
        policy_id: A.to_string(),
        receipt_number: "R1".to_string(),
        amount: money(5.0),
        status,
        due_date: 3,
        payment_method: None,
    };
    let pending = new_payment(input(None), oid(9), &p, "Asha".to_string(), 50);
    assert_eq!(pending.status, PaymentStatus::Pending);
    assert!(pending.paid_at.is_none());
    let collected = new_payment(input(Some(PaymentStatus::Collected)), oid(9), &p, "Asha".to_string(), 50);
    assert_eq!(collected.paid_at, Some(50));
    assert_eq!(keys(&payment_status_set(PaymentStatus::Collected, 1)), vec!["status", "paid_at"]);
    assert_eq!(keys(&payment_status_set(PaymentStatus::Overdue, 1)), vec!["status"]);
}

#[test]
fn leads_start_new() {
    let l = new_lead(
        CreateLeadInput {
            name: "Ravi".to_string(),
            phone: None,
            email: None,
            policy_type: "Motor".to_string(),
            estimated_premium: None,
            probability: 30,
            assigned_to: None,
        },
        oid(4),
        10,
    )
    .ok()
    .unwrap();
    assert_eq!(l.stage, LeadStage::New);
    assert_eq!(l.assigned_to, oid(4));
    let set = lead_update_set(
        &UpdateLeadInput {
            name: None,
            phone: Some("98".to_string()),
            email: None,
            policy_type: None,
            estimated_premium: None,
            probability: Some(60),
            assigned_to: None,
        },
        11,
    )
    .ok()
    .unwrap();
    assert_eq!(keys(&set), vec!["updated_at", "phone", "probability"]);
}

#[test]
fn blank_customer_searches_list_everyone() {
    assert!(customer_list_filter(&ListCustomersQuery { q: Some("   ".to_string()) }).is_empty());
    assert!(customer_list_filter(&ListCustomersQuery { q: None }).is_empty());
    match customer_list_filter(&ListCustomersQuery { q: Some(" asha ".to_string()) }) {
        Filter::AnyOf(cs) => {
            assert_eq!(cs.len(), 3);
            match &cs[1].test {
                Test::Regex { pattern, negate } => {
                    assert_eq!(pattern, " asha ");
                    assert!(!negate);
                },
                _ => panic!("expected a regex"),
            }
        },
        _ => panic!("expected alternatives"),
    }
    assert_eq!(search_term(&SearchQuery { q: "  Asha\t".to_string() }), Some("Asha".to_string()));
    assert_eq!(search_term(&SearchQuery { q: " \n ".to_string() }), None);
}

#[test]
fn customers_and_search_hits() {
    let c = new_customer(
        CreateCustomerInput {
            name: "Asha".to_string(),
            phone: None,
            email: Some("a@x.in".to_string()),
            address: None,
            notes: None,
            tags: vec!["VIP".to_string()],
        },
        oid(1),
        5,
    );
    let hit = customer_result(&c);
    assert_eq!((hit.object, hit.label.as_str(), hit.sublabel.as_str(), hit.id.as_str()), ("customer", "Asha", "a@x.in", ""));
    let ph = policy_result(&Some(oid(2)), oid(3), "P-7", "LIC", "Term");
    assert_eq!(ph.sublabel, "LIC — Term");
    assert_eq!(ph.customer_id, "000000000000000000000003");
    let u = customer_update(
        UpdateCustomerInput { name: None, phone: None, email: None, address: Some("Pune".to_string()), notes: None, tags: None },
        9,
    );
    assert_eq!(keys(&u.fields), vec!["updated_at", "address"]);
    assert!(u.tags.is_none());
}

#[test]
fn user_edits_clear_the_team_with_an_empty_id() {
    let cleared = user_update_set(&UpdateUserInput { role: None, team_id: Some(String::new()) }).ok().unwrap();
    assert_eq!(keys(&cleared), vec!["team_id"]);
    assert!(matches!(cleared[0].value, Value::Null));
    let set = user_update_set(&UpdateUserInput { role: Some(Role::Manager), team_id: Some(A.to_string()) }).ok().unwrap();
    assert_eq!(keys(&set), vec!["role", "team_id"]);
    match &set[0].value {
        Value::Str(s) => assert_eq!(s, "manager"),
        _ => panic!("expected the role"),
    }
    assert!(user_update_set(&UpdateUserInput { role: None, team_id: Some("nope".to_string()) }).is_err());
}

#[test]
fn registration_lowercases_email() {
    let u = new_user(
        RegisterInput {
            name: "Asha".to_string(),
            email: "Asha@Example.COM".to_string(),
            phone: None,
            password: "pw".to_string(),
            role: None,
        },
        Role::Agent,
        "hash".to_string(),
        1,
    );
    assert_eq!(u.email, "asha@example.com");
    assert!(u.team_id.is_none() && u.public_key.is_none());
    match user_insert_error("E11000 duplicate key") {
        ApiError::Conflict(m) => assert_eq!(m, "a user with this email already exists"),
        _ => panic!("expected a conflict"),
    }
}

#[test]
fn teams_parse_all_ids_or_none() {
    let t = new_team(CreateTeamInput { name: "North".to_string(), manager_id: A.to_string(), member_ids: vec![B.to_string()] })
        .ok()
        .unwrap();
    assert_eq!(t.member_ids.len(), 1);
    assert_eq!(t.manager_id.to_hex(), A);
    assert!(parse_ids(&vec![A.to_string(), "bad".to_string()]).is_err());
    assert_eq!(parse_ids(&vec![]).ok().unwrap().len(), 0);
    let u = team_update(&UpdateTeamInput { name: Some("S".to_string()), manager_id: None, member_ids: Some(vec![]) }).ok().unwrap();
    assert_eq!(keys(&u.fields), vec!["name"]);
    assert_eq!(u.member_ids.map(|m| m.len()), Some(0));
}

#[test]
fn settings_have_defaults() {
    let c = Config::from_settings(None, None, "s3cret".to_string(), Some("notaport".to_string()), Some("60".to_string()), None, None);
    assert_eq!(c.mongo_uri, "mongodb://localhost:27017");
    assert_eq!(c.mongo_db_name, "aditya_crm");
    assert_eq!(c.port, 8080);
    assert_eq!(c.notification_scan_interval_secs, 60);
    assert_eq!(c.documents_dir, "./data/documents");
    assert_eq!(c.ai_service_url, "http://localhost:8000");
    let d = Config::from_settings(Some("m".to_string()), Some("db".to_string()), "k".to_string(), Some("9000".to_string()), None, None, None);
    assert_eq!((d.mongo_uri.as_str(), d.mongo_db_name.as_str(), d.port, d.notification_scan_interval_secs), ("m", "db", 9000, 3600));
}

#[test]
fn manual_activities_belong_to_the_caller() {
    let a = manual_activity(
        CreateActivityInput {
            action: "called".to_string(),
            customer_id: Some(A.to_string()),
            customer_name: None,
            policy_type: None,
            icon_type: ActivityIcon::Note,
        },
        oid(5),
    )
    .ok()
    .unwrap();
    assert_eq!(a.assigned_to, Some(oid(5)));
    assert_eq!(a.customer_id.map(|o| o.to_hex()), Some(A.to_string()));
    let stored = new_activity(
        NewActivity {
            user_id: oid(5),
            action: "x".to_string(),
            customer_id: None,
            customer_name: None,
            policy_type: None,
            icon_type: ActivityIcon::Policy,
            assigned_to: None,
        },
        77,
    );
    assert_eq!(stored.created_at, 77);
}

#[test]
fn assistant_forwards_the_callers_own_token() {
    assert_eq!(forwarded_token(&Some("Bearer tok".to_string())).ok(), Some("tok".to_string()));
    assert!(matches!(forwarded_token(&Some("Basic x".to_string())), Err(ApiError::Unauthorized)));
    assert!(matches!(forwarded_token(&None), Err(ApiError::Unauthorized)));
    assert_eq!(failure_reply(&None).reply, "Sorry, I couldn't answer that — please try again shortly");
    assert_eq!(failure_reply(&Some("quota".to_string())).reply, "Sorry, I couldn't answer that — quota");
}
