use aditya_crm::documents::{
    bulk_upload_rows, content_disposition, content_type, document_link, download_token, extension_of, extraction_from_row,
    failed_extraction_row, infer_file_type, last_matched_customer, require_bulk_type, stored_file_name, upload_fields,
    DownloadQuery, ExtractionRow, ExtractionStatus, FileType,
};
use aditya_crm::error::ApiError;
use aditya_crm::grouping::{group_by_label, label_counts};
use aditya_crm::messages::{
    message_recipient, partner_name, thread_limit, thread_tallies, Message, SendMessageInput, ThreadQuery,
};
use aditya_crm::notifications::{mark_sent, new_notification, settle_delivery};
use aditya_crm::oid::Oid;
use aditya_crm::reminders::{
    advance_stage, plan_reminders, render_message, select_rule, sort_desc, NotificationRule, NotificationStatus,
};
use aditya_crm::renewal::RenewalStatus;
use aditya_crm::reports::{
    catalog, comparison_group, order_by_count_desc, parse_report_key, performer_tallies, pipeline_groups, ComparisonGroup,
    ReportKey,
};
use aditya_crm::suggestions::{parse_entity_type, suggestion_status_set, SuggestionStatus, UpdateSuggestionInput};
use aditya_crm::template::render_template;
use aditya_crm::value::{double_rank, Field, Float, Record, Value};
use aditya_crm::workflow::{
    collection_name, condition_matches, conditions_match, default_true, drafted_message, plan_action, rules_fired_on_change,
    rules_fired_on_create, time_trigger_step, with_days, ActionKind, ActionPlan, Condition, ConditionOp, EntityType,
    FollowUpType, TriggerKind, WorkflowRule,
};

fn oid(last: u8) -> Oid {
    let mut bytes = [0u8; 12];
    bytes[11] = last;
    Oid { bytes }
}

fn message(e: ApiError) -> String {
    match e {
        ApiError::BadRequest(m) => m,
        _ => panic!("expected a 400"),
    }
}

fn field(key: &str, value: Value) -> Field {
    let rank = match &value {
        Value::Int32(i) => double_rank((*i as f64).to_bits()),
        Value::Int64(i) => double_rank((*i as f64).to_bits()),
        Value::DateTime(ms) => double_rank((*ms as f64).to_bits()),
        _ => None,
    };
    Field { key: key.to_string(), value, rank }
}

fn renewal_doc() -> Record {
    Record {
        fields: vec![
            field("customer_name", Value::Str("Asha".to_string())),
            field("status", Value::Str("pending".to_string())),
            field("premium_due", Value::Int32(12000)),
            field("assigned_to", Value::ObjectId(oid(7))),
            field("customer_id", Value::ObjectId(oid(8))),
            field("policy_id", Value::ObjectId(oid(9))),
            field("due_date", Value::DateTime(1_773_360_000_000)),
        ],
    }
}

fn cond(field: &str, op: ConditionOp, value: Value) -> Condition {
    let rank = match &value {
        Value::Int32(i) => double_rank((*i as f64).to_bits()),
        _ => None,
    };
    Condition { field: field.to_string(), op, value, rank }
}

fn rule(trigger: TriggerKind, conditions: Vec<Condition>) -> WorkflowRule {
    WorkflowRule {
        id: Some(oid(1)),
        name: "r".to_string(),
        entity_type: EntityType::Renewal,
        trigger,
        conditions,
        actions: vec![],
        enabled: true,
        created_by: oid(2),
        created_at: 0,
    }
}

#[test]
fn conditions_compare_fields() {
    let doc = renewal_doc();
    assert!(condition_matches(&doc, &cond("status", ConditionOp::Eq, Value::Str("pending".to_string()))));
    assert!(!condition_matches(&doc, &cond("status", ConditionOp::Ne, Value::Str("pending".to_string()))));
    assert!(condition_matches(&doc, &cond("missing", ConditionOp::Ne, Value::Str("x".to_string()))));
    assert!(condition_matches(&doc, &cond("premium_due", ConditionOp::Gt, Value::Int32(10000))));
    assert!(!condition_matches(&doc, &cond("premium_due", ConditionOp::Lt, Value::Int32(10000))));
    assert!(condition_matches(&doc, &cond("premium_due", ConditionOp::Gte, Value::Int32(12000))));
    assert!(!condition_matches(&doc, &cond("customer_name", ConditionOp::Gt, Value::Int32(1))));
    assert!(condition_matches(&doc, &cond("assigned_to", ConditionOp::IsSet, Value::Null)));
    assert!(!condition_matches(&doc, &cond("notes", ConditionOp::IsSet, Value::Null)));
    let statuses = Value::Array(
        vec![Value::Str("pending".to_string()), Value::Str("contacted".to_string())],
        "Array([...])".to_string(),
    );
    assert!(condition_matches(&doc, &cond("status", ConditionOp::In, statuses)));
    assert!(!condition_matches(&doc, &cond("status", ConditionOp::In, Value::Str("pending".to_string()))));
    assert!(conditions_match(&doc, &vec![]));
}

#[test]
fn negative_zero_ranks_as_zero() {
    assert_eq!(double_rank((-0.0f64).to_bits()), double_rank(0.0f64.to_bits()));
    assert_eq!(double_rank(f64::NAN.to_bits()), None);
    let xs: [f64; 8] = [-1e9, -2.5, -1.0, 0.0, 1e-300, 1.0, 3.5, 1e300];
    for w in xs.windows(2) {
        assert!(double_rank(w[0].to_bits()).unwrap() < double_rank(w[1].to_bits()).unwrap());
    }
}

#[test]
fn creation_and_change_rules_fire_selectively() {
    let doc = renewal_doc();
    let rules = vec![
        rule(TriggerKind::RecordCreated, vec![]),
        rule(TriggerKind::RecordCreated, vec![cond("status", ConditionOp::Eq, Value::Str("lost".to_string()))]),
        rule(TriggerKind::FieldChanged { field: "status".to_string(), to_value: Some(Value::Str("pending".to_string())) }, vec![]),
        rule(TriggerKind::FieldChanged { field: "status".to_string(), to_value: None }, vec![]),
        rule(TriggerKind::FieldChanged { field: "notes".to_string(), to_value: None }, vec![]),
    ];
    assert_eq!(rules_fired_on_create(&rules, &doc), vec![0usize]);
    assert_eq!(rules_fired_on_change(&rules, "status", &Value::Str("pending".to_string()), &doc), vec![2usize, 3]);
    assert_eq!(rules_fired_on_change(&rules, "status", &Value::Str("lost".to_string()), &doc), vec![3usize]);
}

#[test]
fn time_rules_fire_each_threshold_once() {
    let doc = renewal_doc(); // due 2026-03-13
    let r = rule(TriggerKind::TimeOffset { date_field: "due_date".to_string(), offset_days: vec![7, 30, 1] }, vec![]);
    let due_day = 20_525; // 2026-03-13
    let first = time_trigger_step(&r, &doc, None, due_day - 30);
    assert_eq!(first.fired, vec![30]);
    assert_eq!(first.new_stage, Some(1));
    let again = time_trigger_step(&r, &doc, Some(1), due_day - 30);
    assert!(again.fired.is_empty());
    assert_eq!(again.new_stage, None);
    let later = time_trigger_step(&r, &doc, Some(1), due_day - 6);
    assert_eq!(later.fired, vec![7]);
    assert_eq!(later.new_stage, Some(2));
    let catch_up = time_trigger_step(&r, &doc, None, due_day - 1);
    assert_eq!(catch_up.fired, vec![30, 7, 1]);
    assert_eq!(catch_up.new_stage, Some(3));
    let done = time_trigger_step(&r, &doc, Some(3), due_day - 1);
    assert!(done.fired.is_empty());
    let today = due_day - 8;
    let no_date = rule(TriggerKind::TimeOffset { date_field: "renewed_on".to_string(), offset_days: vec![7] }, vec![]);
    assert!(time_trigger_step(&no_date, &doc, None, today).fired.is_empty());
}

#[test]
fn templates_render_record_fields() {
    let doc = with_days(&renewal_doc(), 7);
    assert_eq!(render_template("Hi {customer_name}, {days} days left", &doc), "Hi Asha, 7 days left");
    assert_eq!(render_template("{unknown}!", &doc), "!");
    assert_eq!(render_template("open {brace", &doc), "open {brace");
    assert_eq!(render_template("premium {premium_due}", &doc), "premium 12000");
    assert_eq!(render_template("due {due_date}", &doc), "due 13 Mar 2026");
}

#[test]
fn actions_plan_their_effects() {
    let doc = with_days(&renewal_doc(), 7);
    let notify = ActionKind::SendNotification { template: "{customer_name}: {days}".to_string() };
    match plan_action(Some(oid(1)), &notify, EntityType::Renewal, oid(5), &doc).ok().unwrap() {
        ActionPlan::Notify { renewal_id, customer_id, user_id, message, offset_days } => {
            assert_eq!(renewal_id, oid(5));
            assert_eq!(customer_id, Some(oid(8)));
            assert_eq!(user_id, oid(7));
            assert_eq!(message, "Asha: 7");
            assert_eq!(offset_days, 0);
        },
        _ => panic!("expected a notification"),
    }
    assert!(matches!(plan_action(Some(oid(1)), &notify, EntityType::Policy, oid(5), &doc), Ok(ActionPlan::Skip)));
    let follow = ActionKind::CreateFollowUp { follow_up_kind: FollowUpType::Call, template: "call {customer_name}".to_string() };
    match plan_action(Some(oid(1)), &follow, EntityType::Renewal, oid(5), &doc).ok().unwrap() {
        ActionPlan::FollowUp { policy_id, author, kind, content } => {
            assert_eq!(policy_id, oid(9));
            assert_eq!(author, oid(1));
            assert_eq!(kind, FollowUpType::Call);
            assert_eq!(content, "call Asha");
        },
        _ => panic!("expected a follow-up"),
    }
    assert_eq!(
        plan_action(Some(oid(1)), &follow, EntityType::Lead, oid(5), &doc).err(),
        Some("CreateFollowUp isn't supported for Lead entities (no policy_id field)".to_string())
    );
    let reassign = ActionKind::ReassignOwner { to_user_id: None };
    assert_eq!(
        plan_action(Some(oid(1)), &reassign, EntityType::Renewal, oid(5), &doc).err(),
        Some("ReassignOwner requires to_user_id".to_string())
    );
    let reassign_to = ActionKind::ReassignOwner { to_user_id: Some(oid(3)) };
    match plan_action(Some(oid(1)), &reassign_to, EntityType::Claim, oid(5), &doc).ok().unwrap() {
        ActionPlan::Reassign { collection, entity_id, new_owner } => {
            assert_eq!((collection, entity_id, new_owner), ("claims", oid(5), oid(3)));
        },
        _ => panic!("expected a reassignment"),
    }
    let suggest = ActionKind::Suggest { message: "Call {customer_name}".to_string() };
    match plan_action(Some(oid(1)), &suggest, EntityType::Renewal, oid(5), &doc).ok().unwrap() {
        ActionPlan::Suggest { rule_id, assigned_to, message, .. } => {
            assert_eq!(rule_id, oid(1));
            assert_eq!(assigned_to, Some(oid(7)));
            assert_eq!(message, "Call Asha");
        },
        _ => panic!("expected a suggestion"),
    }
    let draft = ActionKind::DraftAiMessage { hint: "be brief".to_string() };
    match plan_action(Some(oid(1)), &draft, EntityType::Renewal, oid(5), &doc).ok().unwrap() {
        ActionPlan::Draft { context, hint, .. } => {
            assert_eq!(hint, "be brief");
            assert_eq!(context[0], ("customer_name".to_string(), "Asha".to_string()));
            assert_eq!(context.last().unwrap(), &("days".to_string(), "7".to_string()));
        },
        _ => panic!("expected a draft"),
    }
    assert_eq!(drafted_message("See you"), "Drafted follow-up: See you");
    assert_eq!(collection_name(EntityType::Policy), "policies");
    assert!(default_true());
}

#[test]
fn report_keys_and_catalog() {
    assert_eq!(parse_report_key("premium_by_insurer").ok(), Some(ReportKey::PremiumByInsurer));
    assert_eq!(message(parse_report_key("sales").err().unwrap()), "unknown report");
    let c = catalog();
    assert_eq!(c.len(), 3);
    assert_eq!(c[0].key, ReportKey::RenewalPipeline);
    assert_eq!(c[2].name, "New business by type");
    assert_eq!(comparison_group("insurer_name").ok(), Some(ComparisonGroup::InsurerName));
    assert_eq!(message(comparison_group("agent").err().unwrap()), "group_by must be 'policy_type' or 'insurer_name'");
}

#[test]
fn report_rows_group_and_rank() {
    let labels: Vec<String> = ["LIC", "Bajaj", "LIC", "Acko", "Bajaj", "LIC"].iter().map(|s| s.to_string()).collect();
    let groups = group_by_label(&labels);
    let seen: Vec<(String, Vec<usize>)> = groups.into_iter().map(|g| (g.label, g.members)).collect();
    assert_eq!(
        seen,
        vec![
            ("Acko".to_string(), vec![3]),
            ("Bajaj".to_string(), vec![1, 4]),
            ("LIC".to_string(), vec![0, 2, 5]),
        ]
    );
    let counts = label_counts(&labels);
    assert_eq!(counts.iter().map(|c| c.count).collect::<Vec<u32>>(), vec![1, 2, 3]);
    assert_eq!(order_by_count_desc(&vec![1, 2, 3]), vec![2usize, 1, 0]);
    assert_eq!(order_by_count_desc(&vec![2, 1, 2]), vec![0usize, 2, 1]);
    let statuses = vec![RenewalStatus::Lost, RenewalStatus::Pending, RenewalStatus::Lost, RenewalStatus::Renewed];
    let p = pipeline_groups(&statuses);
    assert_eq!(p, vec![vec![1usize], vec![], vec![3], vec![], vec![0, 2]]);
}

#[test]
fn leaderboard_tallies_by_owner() {
    let t = performer_tallies(
        &vec![oid(2), oid(1), oid(2)],
        &vec![oid(1), oid(3), oid(1), oid(2)],
        &vec![RenewalStatus::Renewed, RenewalStatus::Lost, RenewalStatus::Lost, RenewalStatus::Pending],
    );
    let rows: Vec<(String, Vec<usize>, u32, u32)> = t.into_iter().map(|x| (x.user_id, x.policies, x.renewed, x.lost)).collect();
    assert_eq!(
        rows,
        vec![
            (oid(1).to_hex(), vec![1], 1, 1),
            (oid(2).to_hex(), vec![0, 2], 0, 0),
            (oid(3).to_hex(), vec![], 0, 1),
        ]
    );
}

#[test]
fn uploads_are_typed_by_extension() {
    assert_eq!(infer_file_type("scan.PDF").ok(), Some(FileType::Pdf));
    assert_eq!(infer_file_type("photo.jpeg").ok(), Some(FileType::Image));
    assert_eq!(infer_file_type("book.XLS").ok(), Some(FileType::Xlsx));
    assert_eq!(infer_file_type("page.htm").ok(), Some(FileType::Html));
    assert_eq!(message(infer_file_type("notes.docx").err().unwrap()), "unsupported file type: .docx");
    assert_eq!(message(infer_file_type("README").err().unwrap()), "unsupported file type: .readme");
    assert_eq!(extension_of("archive.tar.gz"), "gz");
    assert_eq!(extension_of("trailing."), "");
    assert_eq!(extension_of("noext"), "noext");
    let name = stored_file_name("Policy.Scan.PDF");
    assert_eq!(name.len(), 40);
    assert!(name.ends_with(".PDF"));
    let id: Vec<char> = name.chars().take(36).collect();
    for (i, c) in id.iter().enumerate() {
        if [8, 13, 18, 23].contains(&i) {
            assert_eq!(*c, '-');
        } else {
            assert!(c.is_ascii_digit() || ('a'..='f').contains(c));
        }
    }
    assert_eq!(id[14], '4');
    assert!(['8', '9', 'a', 'b'].contains(&id[19]));
    assert_ne!(stored_file_name("a.pdf"), stored_file_name("a.pdf"));
    assert_eq!(message(upload_fields(None, true).err().unwrap()), "no file field in upload");
    assert_eq!(message(upload_fields(Some("a.pdf".to_string()), false).err().unwrap()), "no file field in upload");
    assert_eq!(upload_fields(Some("a.png".to_string()), true).ok(), Some(("a.png".to_string(), FileType::Image)));
    assert!(require_bulk_type(FileType::Html).is_ok());
    assert_eq!(message(require_bulk_type(FileType::Pdf).err().unwrap()), "bulk upload only accepts .xlsx or .html files");
    assert_eq!(content_type(FileType::Html), "text/html");
    assert_eq!(content_disposition("a b.pdf"), "inline; filename=\"a b.pdf\"");
}

fn row(customer: Option<&str>, policy: Option<&str>) -> ExtractionRow {
    ExtractionRow {
        row_index: Some(0),
        status: ExtractionStatus::Applied,
        confidence: Float { bits: 0.9f64.to_bits(), text: "0.9".to_string() },
        extracted_fields: "{}".to_string(),
        matched_customer_id: customer.map(|s| s.to_string()),
        matched_policy_id: policy.map(|s| s.to_string()),
        created_customer: false,
        error: None,
    }
}

#[test]
fn extraction_replies_become_records() {
    let failed = failed_extraction_row("timeout");
    assert_eq!(failed.status, ExtractionStatus::Failed);
    assert_eq!(failed.error.as_deref(), Some("extraction service unavailable: timeout"));
    let (total, rows) = bulk_upload_rows(Err("down".to_string()));
    assert_eq!((total, rows.len()), (0, 1));
    let x = extraction_from_row(oid(1), row(Some("000000000000000000000002"), None), 5).ok().unwrap();
    assert_eq!(x.matched_customer_id, Some(oid(2)));
    assert_eq!(document_link(&x), Some((Some(oid(2)), None)));
    assert!(extraction_from_row(oid(1), row(Some("bad"), None), 5).is_err());
    let y = extraction_from_row(oid(1), row(None, None), 5).ok().unwrap();
    assert_eq!(document_link(&y), None);
    let z = extraction_from_row(oid(1), row(Some("000000000000000000000004"), None), 5).ok().unwrap();
    assert_eq!(last_matched_customer(&vec![x, y, z]), Some(oid(4)));
    assert_eq!(download_token(true, &DownloadQuery { token: None }).ok(), Some(None));
    assert_eq!(download_token(false, &DownloadQuery { token: Some("t".to_string()) }).ok(), Some(Some("t".to_string())));
    assert!(matches!(download_token(false, &DownloadQuery { token: None }), Err(ApiError::Unauthorized)));
}

fn msg(from: u8, to: u8, read: bool, at: i64) -> Message {
    Message {
        id: None,
        sender_id: oid(from),
        recipient_id: oid(to),
        ciphertext: "c".to_string(),
        iv: "i".to_string(),
        read_at: if read { Some(1) } else { None },
        created_at: at,
    }
}

#[test]
fn threads_count_only_the_partners_unread_messages() {
    let me = oid(1);
    let newest_first = vec![msg(1, 2, false, 9), msg(3, 1, false, 8), msg(2, 1, false, 7), msg(2, 1, true, 6), msg(3, 1, false, 5)];
    let t = thread_tallies(me, &newest_first);
    let rows: Vec<(Oid, usize, u32)> = t.into_iter().map(|x| (x.partner, x.first, x.unread)).collect();
    assert_eq!(rows, vec![(oid(2), 0, 1), (oid(3), 1, 2)]);
    assert_eq!(partner_name(None), "Unknown");
    assert_eq!(thread_limit(&ThreadQuery { page_size: None }), 100);
    assert_eq!(thread_limit(&ThreadQuery { page_size: Some(0) }), 1);
    assert_eq!(thread_limit(&ThreadQuery { page_size: Some(500) }), 200);
    let own = SendMessageInput { recipient_id: me.to_hex(), ciphertext: "c".to_string(), iv: "i".to_string() };
    assert_eq!(message(message_recipient(me, &own).err().unwrap()), "cannot message yourself");
}

#[test]
fn reminders_fire_from_the_farthest_threshold() {
    let rule = NotificationRule {
        id: None,
        policy_type: None,
        offset_days: vec![1, 30, 7, 15],
        template: "Dear {customer_name}, your {policy_type} with {insurer_name} is due in {days} days".to_string(),
    };
    assert_eq!(sort_desc(&rule.offset_days), vec![30, 15, 7, 1]);
    assert_eq!(advance_stage(&vec![30, 15, 7, 1], 0, 10), 2);
    assert_eq!(advance_stage(&vec![30, 15, 7, 1], 2, 10), 2);
    let due = 1_773_360_000_000; // 2026-03-13
    let plan = plan_reminders(&rule, due, 1, 20_518, "Asha", "Health", "LIC");
    assert_eq!(plan.reminders.len(), 2);
    assert_eq!(plan.reminders[0].0, 15);
    assert_eq!(plan.reminders[1].1, "Dear Asha, your Health with LIC is due in 7 days");
    assert_eq!(plan.new_stage, Some(3));
    assert_eq!(render_message("{days}{days}", "", "", "", -3), "-3-3");
    let specific = NotificationRule { id: None, policy_type: Some("Motor".to_string()), offset_days: vec![], template: String::new() };
    let rules = vec![rule, specific];
    assert_eq!(select_rule(&rules, "Motor"), Some(1));
    assert_eq!(select_rule(&rules, "Health"), Some(0));
}

#[test]
fn suggestions_record_who_closed_them() {
    assert_eq!(parse_entity_type("policy").ok(), Some(EntityType::Policy));
    assert_eq!(message(parse_entity_type("lead").err().unwrap()), "unknown entity type");
    let closed = suggestion_status_set(&UpdateSuggestionInput { status: SuggestionStatus::Dismissed }, oid(4), 9);
    assert_eq!(closed.iter().map(|f| f.key.as_str()).collect::<Vec<_>>(), vec!["status", "dismissed_at", "dismissed_by"]);
    let reopened = suggestion_status_set(&UpdateSuggestionInput { status: SuggestionStatus::Open }, oid(4), 9);
    assert_eq!(reopened.len(), 1);
}

#[test]
fn undelivered_notifications_stay_queued() {
    let mut n = new_notification(oid(1), None, oid(2), "m".to_string(), 7, 3);
    assert_eq!(n.status, NotificationStatus::Queued);
    mark_sent(&mut n, 10);
    assert_eq!((n.status, n.sent_at), (NotificationStatus::Sent, Some(10)));
    assert!(!settle_delivery(&mut n, false));
    assert_eq!((n.status, n.sent_at), (NotificationStatus::Queued, None));
    mark_sent(&mut n, 11);
    assert!(settle_delivery(&mut n, true));
    assert_eq!(n.sent_at, Some(11));
}

use aditya_crm::documents::{bulk_upload_rows as bulk_rows, single_upload_row};
use aditya_crm::reminders::default_notification_rule;

#[test]
fn a_failed_extraction_is_recorded_with_nothing_extracted() {
    let row = single_upload_row(Err("timeout".to_string()));
    assert_eq!(row.row_index, None);
    assert_eq!(row.status, ExtractionStatus::Failed);
    assert_eq!(row.confidence.bits, 0);
    assert_eq!(row.extracted_fields, "null");
    assert!(!row.created_customer);
    assert_eq!((row.matched_customer_id, row.matched_policy_id), (None, None));
    assert_eq!(row.error.as_deref(), Some("extraction service unavailable: timeout"));
    let (total, rows) = bulk_rows(Err("down".to_string()));
    assert_eq!(total, 0);
    assert_eq!(rows[0].confidence.bits, 0);
    assert_eq!(rows[0].extracted_fields, "null");
    assert!(!rows[0].created_customer);
    assert_eq!(rows[0].error.as_deref(), Some("extraction service unavailable: down"));
}

#[test]
fn a_push_that_reaches_nobody_leaves_the_notification_as_it_was() {
    let mut n = new_notification(oid(1), Some(oid(3)), oid(2), "due soon".to_string(), 15, 4);
    let before = n.clone();
    mark_sent(&mut n, 10);
    assert!(!settle_delivery(&mut n, false));
    assert_eq!((n.id, n.renewal_id, n.customer_id, n.user_id), (before.id, before.renewal_id, before.customer_id, before.user_id));
    assert_eq!((n.channel, n.status, n.offset_days), (before.channel, before.status, before.offset_days));
    assert_eq!((n.message, n.sent_at, n.read_at, n.created_at), (before.message, before.sent_at, before.read_at, before.created_at));
}

#[test]
fn a_draft_is_planned_before_the_rule_id_is_needed() {
    let doc = renewal_doc();
    let draft = ActionKind::DraftAiMessage { hint: "be brief".to_string() };
    match plan_action(None, &draft, EntityType::Renewal, oid(5), &doc).ok().unwrap() {
        ActionPlan::Draft { rule_id, hint, .. } => {
            assert_eq!(rule_id, None);
            assert_eq!(hint, "be brief");
        },
        _ => panic!("expected a draft"),
    }
}

#[test]
fn a_second_reminder_scan_the_same_day_sends_nothing() {
    let rule = default_notification_rule();
    let due = 1_773_360_000_000; // 2026-03-13
    let today = 20_515; // ten days before due
    let first = plan_reminders(&rule, due, 0, today, "Asha", "Health", "HDFC Ergo");
    assert_eq!(first.reminders.iter().map(|r| r.0).collect::<Vec<_>>(), vec![30, 15]);
    assert_eq!(first.reminders[0].1, "Asha's Health policy with HDFC Ergo is due for renewal in 30 day(s).");
    assert_eq!(first.new_stage, Some(2));
    let second = plan_reminders(&rule, due, 2, today, "Asha", "Health", "HDFC Ergo");
    assert!(second.reminders.is_empty());
    assert_eq!(second.new_stage, None);
}

use aditya_crm::suggestions::suggestion_to_insert;
use aditya_crm::workflow::time_rule_applies;

fn entry(key: &str, v: Value) -> (String, Value) {
    (key.to_string(), v)
}

fn double(d: f64) -> Value {
    Value::Double(Float { bits: d.to_bits(), text: format!("{d}") })
}

#[test]
fn embedded_documents_compare_as_maps() {
    let a = Value::Document(vec![entry("x", Value::Int32(1)), entry("y", double(0.0))], "a".to_string());
    let b = Value::Document(vec![entry("y", double(-0.0)), entry("x", Value::Int32(1))], "b".to_string());
    assert!(a.equals(&b));
    let nan = Value::Document(vec![entry("x", double(f64::NAN))], "n".to_string());
    assert!(!nan.equals(&nan.duplicate()));
    let shorter = Value::Document(vec![entry("x", Value::Int32(1))], "s".to_string());
    assert!(!a.equals(&shorter));
    let other_value = Value::Document(vec![entry("x", Value::Int32(2)), entry("y", double(0.0))], "c".to_string());
    assert!(!a.equals(&other_value));
    let code = Value::CodeWithScope("f()".to_string(), vec![entry("k", double(1.0))], "c".to_string());
    assert!(code.equals(&code.duplicate()));
    let other_code = Value::CodeWithScope("g()".to_string(), vec![entry("k", double(1.0))], "c".to_string());
    assert!(!code.equals(&other_code));
    assert_eq!(a.display_text(), "a");
}

#[test]
fn a_rule_opens_a_suggestion_only_when_none_is_open() {
    assert!(suggestion_to_insert(oid(1), EntityType::Renewal, oid(5), Some(oid(7)), "m".to_string(), true, 9).is_none());
    let s = suggestion_to_insert(oid(1), EntityType::Renewal, oid(5), Some(oid(7)), "m".to_string(), false, 9).unwrap();
    assert_eq!((s.rule_id, s.entity_id, s.assigned_to), (oid(1), oid(5), Some(oid(7))));
    assert_eq!((s.status, s.created_at, s.message.as_str()), (SuggestionStatus::Open, 9, "m"));
}

#[test]
fn a_time_rule_looks_only_at_records_with_its_date_and_conditions() {
    let doc = renewal_doc();
    let dated = rule(TriggerKind::TimeOffset { date_field: "due_date".to_string(), offset_days: vec![7] }, vec![]);
    assert!(time_rule_applies(&dated, &doc));
    let undated = rule(TriggerKind::TimeOffset { date_field: "renewed_on".to_string(), offset_days: vec![7] }, vec![]);
    assert!(!time_rule_applies(&undated, &doc));
    let unmet = rule(
        TriggerKind::TimeOffset { date_field: "due_date".to_string(), offset_days: vec![7] },
        vec![cond("status", ConditionOp::Eq, Value::Str("renewed".to_string()))],
    );
    assert!(!time_rule_applies(&unmet, &doc));
}
