use porkbun_ddns::reconcile::{
    fully_qualified_name, plan_reconciliation, RecordCall, ReconciliationPlan, RECORD_TTL,
};
use porkbun_ddns::responses::DnsRecord;

fn record(id: &str, name: &str, record_type: &str, content: &str) -> DnsRecord {
    DnsRecord {
        id: id.to_string(),
        name: name.to_string(),
        record_type: record_type.to_string(),
        content: content.to_string(),
        ttl: "600".to_string(),
        prio: None,
        notes: None,
    }
}

fn labels(l: &[&str]) -> Vec<String> {
    l.iter().map(|s| s.to_string()).collect()
}

fn created_names(plan: &ReconciliationPlan) -> Vec<String> {
    plan.to_create.iter().map(|(name, _)| name.clone()).collect()
}

fn ids(records: &[DnsRecord]) -> Vec<String> {
    records.iter().map(|r| r.id.clone()).collect()
}

/// Carries a plan out on a copy of the records, the way the provider would.
fn apply(records: &[DnsRecord], plan: &ReconciliationPlan, ip: &str) -> Vec<DnsRecord> {
    let deleted = ids(&plan.to_delete);
    let mut out: Vec<DnsRecord> = Vec::new();
    for r in records {
        if deleted.contains(&r.id) {
            continue;
        }
        match plan.to_update.iter().find(|u| u.id == r.id) {
            Some(u) => out.push(u.duplicate()),
            None => out.push(r.duplicate()),
        }
    }
    for (n, (name, _)) in plan.to_create.iter().enumerate() {
        out.push(record(&format!("new{}", n), name, "A", ip));
    }
    out
}

#[test]
fn fully_qualified_name_joins_with_a_dot() {
    assert_eq!(fully_qualified_name("www", "example.com"), "www.example.com");
    assert_eq!(fully_qualified_name("", "example.com"), ".example.com");
}

#[test]
fn missing_names_are_created_with_their_label() {
    let records = vec![record("1", "www.example.com", "A", "1.2.3.4")];
    let plan = plan_reconciliation("example.com", &labels(&["www", "api", "mail"]), "1.2.3.4", &records);
    assert_eq!(
        plan.to_create,
        vec![
            ("api.example.com".to_string(), "api".to_string()),
            ("mail.example.com".to_string(), "mail".to_string()),
        ]
    );
    assert!(plan.to_update.is_empty());
    assert!(plan.to_delete.is_empty());
}

#[test]
fn only_orphaned_a_records_are_deleted() {
    let records = vec![
        record("1", "www.example.com", "A", "1.2.3.4"),
        record("2", "old.example.com", "A", "1.2.3.4"),
        record("3", "example.com", "A", "9.9.9.9"),
    ];
    let plan = plan_reconciliation("example.com", &labels(&["www"]), "1.2.3.4", &records);
    assert_eq!(ids(&plan.to_delete), vec!["2".to_string(), "3".to_string()]);
    assert!(plan.to_create.is_empty());
    assert!(plan.to_update.is_empty());
}

#[test]
fn created_names_are_never_deleted() {
    let records = vec![
        record("1", "www.example.com", "A", "5.5.5.5"),
        record("2", "old.example.com", "A", "1.2.3.4"),
        record("3", "api.example.com", "TXT", "x"),
    ];
    let plan = plan_reconciliation("example.com", &labels(&["www", "api"]), "1.2.3.4", &records);
    assert_eq!(created_names(&plan), vec!["api.example.com".to_string()]);
    assert_eq!(ids(&plan.to_delete), vec!["2".to_string()]);
    for name in created_names(&plan) {
        assert!(plan.to_delete.iter().all(|d| d.name != name));
    }
    for u in &plan.to_update {
        assert!(plan.to_delete.iter().all(|d| d.id != u.id));
    }
}

#[test]
fn drifted_record_is_updated_to_current_ip() {
    let mut records = vec![
        record("7", "www.example.com", "A", "5.5.5.5"),
        record("8", "api.example.com", "A", "1.2.3.4"),
    ];
    records[0].ttl = "3600".to_string();
    let plan = plan_reconciliation("example.com", &labels(&["www", "api"]), "1.2.3.4", &records);
    assert_eq!(plan.to_update.len(), 1);
    let u = &plan.to_update[0];
    assert_eq!(u.id, "7");
    assert_eq!(u.name, "www.example.com");
    assert_eq!(u.record_type, "A");
    assert_eq!(u.content, "1.2.3.4");
    assert_eq!(u.ttl, RECORD_TTL);
    assert!(plan.to_create.is_empty());
    assert!(plan.to_delete.is_empty());
}

#[test]
fn cname_with_desired_name_is_ignored() {
    let records = vec![record("5", "www.example.com", "CNAME", "other.example.net")];
    let plan = plan_reconciliation("example.com", &labels(&["www"]), "1.2.3.4", &records);
    assert_eq!(
        plan.to_create,
        vec![("www.example.com".to_string(), "www".to_string())]
    );
    assert!(plan.to_update.is_empty());
    assert!(plan.to_delete.is_empty());
    let orphan = vec![record("6", "old.example.com", "CNAME", "x.example.net")];
    let plan = plan_reconciliation("example.com", &labels(&["www"]), "1.2.3.4", &orphan);
    assert!(plan.to_delete.is_empty());
    assert!(plan.to_update.is_empty());
}

#[test]
fn second_run_plans_nothing() {
    let records = vec![
        record("1", "www.example.com", "A", "5.5.5.5"),
        record("2", "old.example.com", "A", "5.5.5.5"),
        record("3", "www.example.com", "MX", "mail.example.net"),
    ];
    let subs = labels(&["www", "api"]);
    let first = plan_reconciliation("example.com", &subs, "1.2.3.4", &records);
    assert_eq!(first.to_create.len(), 1);
    assert_eq!(first.to_update.len(), 1);
    assert_eq!(first.to_delete.len(), 1);
    let after = apply(&records, &first, "1.2.3.4");
    let second = plan_reconciliation("example.com", &subs, "1.2.3.4", &after);
    assert!(second.to_create.is_empty());
    assert!(second.to_update.is_empty());
    assert!(second.to_delete.is_empty());
}

#[test]
fn no_subdomains_deletes_every_a_record() {
    let records = vec![
        record("1", "www.example.com", "A", "1.2.3.4"),
        record("2", "example.com", "AAAA", "::1"),
    ];
    let plan = plan_reconciliation("example.com", &Vec::new(), "1.2.3.4", &records);
    assert!(plan.to_create.is_empty());
    assert!(plan.to_update.is_empty());
    assert_eq!(ids(&plan.to_delete), vec!["1".to_string()]);
}

#[test]
fn empty_remote_state_creates_everything() {
    let plan = plan_reconciliation("example.com", &labels(&["a", "b"]), "1.2.3.4", &Vec::new());
    assert_eq!(
        created_names(&plan),
        vec!["a.example.com".to_string(), "b.example.com".to_string()]
    );
}

#[test]
fn calls_create_then_update_then_delete() {
    let records = vec![
        record("1", "old.example.com", "A", "1.2.3.4"),
        record("2", "www.example.com", "A", "5.5.5.5"),
    ];
    let plan = plan_reconciliation("example.com", &labels(&["www", "api"]), "1.2.3.4", &records);
    let calls: Vec<String> = plan
        .calls()
        .into_iter()
        .map(|c| match c {
            RecordCall::Create { name, sub_domain } => format!("create {} {}", name, sub_domain),
            RecordCall::Update { record } => format!("update {} {}", record.id, record.content),
            RecordCall::Delete { record } => format!("delete {}", record.id),
        })
        .collect();
    assert_eq!(
        calls,
        vec![
            "create api.example.com api".to_string(),
            "update 2 1.2.3.4".to_string(),
            "delete 1".to_string(),
        ]
    );
}

#[test]
fn second_run_plans_nothing_in_any_order() {
    let records = vec![
        record("1", "www.example.com", "A", "5.5.5.5"),
        record("2", "old.example.com", "A", "5.5.5.5"),
    ];
    let subs = labels(&["www", "api"]);
    let first = plan_reconciliation("example.com", &subs, "1.2.3.4", &records);
    let mut after = apply(&records, &first, "1.2.3.4");
    after.reverse();
    after[0].ttl = "3600".to_string();
    let second = plan_reconciliation("example.com", &subs, "1.2.3.4", &after);
    assert!(second.calls().is_empty());
}
