use aditya_crm::auth::Role;
use aditya_crm::documents::{reassignment_to_uploader, DocumentExtraction, DocumentExtractionResponse, ExtractionStatus};
use aditya_crm::filter::{Filter, Test};
use aditya_crm::messages::{my_messages_filter, thread_filter};
use aditya_crm::policies::follow_up_renewal_update;
use aditya_crm::reminders::reminder_candidates_filter;
use aditya_crm::suggestions::open_suggestion_filter;
use aditya_crm::indexes::required_indexes;
use aditya_crm::oid::{Oid, SYSTEM_USER_ID};
use aditya_crm::policies::agency_insurer_filter;
use aditya_crm::reminders::default_notification_rule;
use aditya_crm::staff::system_user;
use aditya_crm::value::{Float, Value};

fn oid(last: u8) -> Oid {
    let mut bytes = [0u8; 12];
    bytes[11] = last;
    Oid { bytes }
}

#[test]
fn index_plan_lists_every_index_once_in_order() {
    let ix = required_indexes();
    assert_eq!(ix.len(), 25);
    assert_eq!(ix[0].collection, "users");
    assert_eq!(ix[0].keys.len(), 1);
    assert_eq!(ix[0].keys[0].field, "email");
    assert_eq!(ix[0].keys[0].direction, 1);
    assert!(ix[0].unique);
    assert!(ix[2].unique);
    assert_eq!(ix[2].keys[0].field, "policy_number");
    assert!(ix[11].unique);
    assert_eq!(ix[11].collection, "workflow_trigger_state");
    assert_eq!(ix[11].keys.len(), 2);
    let uniques = ix.iter().filter(|i| i.unique).count();
    assert_eq!(uniques, 3);
    let last = &ix[24];
    assert_eq!(last.collection, "messages");
    assert_eq!(last.keys[0].field, "recipient_id");
    assert_eq!(last.keys[2].field, "created_at");
    assert_eq!(last.keys[2].direction, -1);
}

#[test]
fn default_rule_covers_every_policy_type() {
    let r = default_notification_rule();
    assert!(r.id.is_none());
    assert!(r.policy_type.is_none());
    assert_eq!(r.offset_days, vec![30, 15, 7, 1, 0]);
    assert!(r.template.contains("{days}"));
    assert!(r.template.starts_with("{customer_name}'s {policy_type} policy"));
}

#[test]
fn system_user_has_the_fixed_id() {
    let u = system_user("hash".to_string(), 42);
    let id = u.id.expect("system user has an id");
    assert_eq!(id.to_hex(), SYSTEM_USER_ID);
    assert_eq!(id.bytes[11], 1);
    assert_eq!(u.email, "ai-extraction@internal.local");
    assert_eq!(u.name, "AI Extraction Service");
    assert_eq!(u.role, Role::Admin);
    assert_eq!(u.password_hash, "hash");
    assert_eq!(u.created_at, 42);
}

#[test]
fn agency_names_are_looked_up_as_insurers() {
    let f = agency_insurer_filter();
    match f {
        Filter::Doc(cs) => {
            assert_eq!(cs.len(), 1);
            assert_eq!(cs[0].field, "insurer_name");
            match &cs[0].test {
                Test::In(vs) => {
                    assert_eq!(vs.len(), 6);
                    assert!(matches!(&vs[0], Value::Str(s) if s == "The Aditya Capital"));
                    assert!(matches!(&vs[5], Value::Str(s) if s == "aditya capital"));
                }
                _ => panic!("expected an $in test"),
            }
        }
        _ => panic!("expected a plain document"),
    }
}

#[test]
fn extraction_response_shows_ids_as_hex() {
    let e = DocumentExtraction {
        id: None,
        document_id: oid(10),
        status: ExtractionStatus::FlaggedLowConfidence,
        extracted_fields: "{\"policy_number\":\"P-1\"}".to_string(),
        matched_customer_id: Some(oid(11)),
        matched_policy_id: None,
        created_customer: true,
        confidence: Float { bits: 0.5f64.to_bits(), text: "0.5".to_string() },
        error: None,
        row_index: Some(3),
        created_at: 7,
    };
    let r = DocumentExtractionResponse::from_extraction(e);
    assert_eq!(r.id, "");
    assert_eq!(r.document_id, "00000000000000000000000a");
    assert_eq!(r.matched_customer_id.as_deref(), Some("00000000000000000000000b"));
    assert!(r.matched_policy_id.is_none());
    assert_eq!(r.status, ExtractionStatus::FlaggedLowConfidence);
    assert_eq!(r.extracted_fields, "{\"policy_number\":\"P-1\"}");
    assert!(r.created_customer);
    assert_eq!(r.row_index, Some(3));
    assert_eq!(r.created_at, 7);
}

fn eq_oid(test: &Test, want: Oid) -> bool {
    matches!(test, Test::Eq(Value::ObjectId(o)) if o.bytes == want.bytes)
}

fn eq_str(test: &Test, want: &str) -> bool {
    matches!(test, Test::Eq(Value::Str(s)) if s == want)
}

#[test]
fn reminder_scan_reads_open_renewals_only() {
    match reminder_candidates_filter() {
        Filter::Doc(cs) => {
            assert_eq!(cs.len(), 1);
            assert_eq!(cs[0].field, "status");
            match &cs[0].test {
                Test::In(vs) => {
                    let keys: Vec<&str> = vs
                        .iter()
                        .map(|v| match v {
                            Value::Str(s) => s.as_str(),
                            _ => panic!("expected text"),
                        })
                        .collect();
                    assert_eq!(keys, vec!["pending", "contacted"]);
                }
                _ => panic!("expected an $in test"),
            }
        }
        _ => panic!("expected a plain document"),
    }
}

#[test]
fn a_follow_up_moves_the_pending_renewal_to_contacted() {
    let (filter, set) = follow_up_renewal_update(oid(5), 99);
    match filter {
        Filter::Doc(cs) => {
            assert_eq!(cs.len(), 2);
            assert_eq!(cs[0].field, "policy_id");
            assert!(eq_oid(&cs[0].test, oid(5)));
            assert_eq!(cs[1].field, "status");
            assert!(eq_str(&cs[1].test, "pending"));
        }
        _ => panic!("expected a plain document"),
    }
    assert_eq!(set.len(), 2);
    assert_eq!(set[0].key, "status");
    assert!(matches!(&set[0].value, Value::Str(s) if s == "contacted"));
    assert_eq!(set[1].key, "last_contacted_at");
    assert!(matches!(set[1].value, Value::DateTime(99)));
}

#[test]
fn messages_are_scoped_to_their_two_people() {
    match my_messages_filter(oid(1)) {
        Filter::AnyOf(cs) => {
            assert_eq!(cs.len(), 2);
            assert_eq!(cs[0].field, "sender_id");
            assert!(eq_oid(&cs[0].test, oid(1)));
            assert_eq!(cs[1].field, "recipient_id");
            assert!(eq_oid(&cs[1].test, oid(1)));
        }
        _ => panic!("expected $or of conditions"),
    }
    match thread_filter(oid(1), oid(2)) {
        Filter::Either(a, b) => {
            match *a {
                Filter::Doc(cs) => {
                    assert!(eq_oid(&cs[0].test, oid(1)) && eq_oid(&cs[1].test, oid(2)));
                }
                _ => panic!("expected a plain document"),
            }
            match *b {
                Filter::Doc(cs) => {
                    assert!(eq_oid(&cs[0].test, oid(2)) && eq_oid(&cs[1].test, oid(1)));
                }
                _ => panic!("expected a plain document"),
            }
        }
        _ => panic!("expected $or of two documents"),
    }
}

#[test]
fn a_rule_looks_for_its_own_open_suggestion() {
    match open_suggestion_filter(oid(7), oid(8)) {
        Filter::Doc(cs) => {
            assert_eq!(cs.len(), 3);
            assert_eq!(cs[0].field, "rule_id");
            assert!(eq_oid(&cs[0].test, oid(7)));
            assert_eq!(cs[1].field, "entity_id");
            assert!(eq_oid(&cs[1].test, oid(8)));
            assert_eq!(cs[2].field, "status");
            assert!(eq_str(&cs[2].test, "open"));
        }
        _ => panic!("expected a plain document"),
    }
}

#[test]
fn a_matched_policy_moves_to_the_uploader() {
    let (policy, renewal, set) = reassignment_to_uploader(oid(3), oid(4));
    match policy {
        Filter::Doc(cs) => {
            assert_eq!(cs.len(), 1);
            assert_eq!(cs[0].field, "_id");
            assert!(eq_oid(&cs[0].test, oid(3)));
        }
        _ => panic!("expected a plain document"),
    }
    match renewal {
        Filter::Doc(cs) => {
            assert_eq!(cs.len(), 1);
            assert_eq!(cs[0].field, "policy_id");
            assert!(eq_oid(&cs[0].test, oid(3)));
        }
        _ => panic!("expected a plain document"),
    }
    assert_eq!(set.len(), 1);
    assert_eq!(set[0].key, "assigned_to");
    assert!(matches!(&set[0].value, Value::ObjectId(o) if o.bytes == oid(4).bytes));
}
