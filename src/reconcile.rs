//! Reconciliation of a domain's A records with the desired subdomains.
//!
//! The plan deletes only orphaned A records (those whose name is not a
//! desired name), updates the desired ones whose address drifted, and creates
//! the desired names that have no A record yet. Records of any other type are
//! never touched and never count as present.
use vstd::prelude::*;
use crate::responses::{DnsRecord, RecordView, record_views};

verus! {

broadcast use vstd::seq_lib::group_filter_ensures, vstd::seq::group_seq_axioms;

/// The fully qualified name of a subdomain label: `label.domain`.
pub open spec fn fqdn(label: Seq<char>, domain: Seq<char>) -> Seq<char> {
    label + seq!['.'] + domain
}

/// The record type that this reconciler manages.
pub open spec fn a_type() -> Seq<char> {
    seq!['A']
}

/// The TTL, in seconds, of every record this reconciler creates or updates.
pub const RECORD_TTL: &'static str = "600";

pub open spec fn planned_ttl() -> Seq<char> {
    seq!['6', '0', '0']
}

pub open spec fn is_a(r: RecordView) -> bool {
    r.record_type == a_type()
}

/// The labels' views, in order.
pub open spec fn label_views(labels: Seq<String>) -> Seq<Seq<char>> {
    labels.map_values(|s: String| s@)
}

/// The desired `(name, label)` pairs, one per label, in order.
pub open spec fn desired_pairs(domain: Seq<char>, labels: Seq<Seq<char>>) -> Seq<(Seq<char>, Seq<char>)> {
    labels.map_values(|l: Seq<char>| (fqdn(l, domain), l))
}

/// Whether `name` is the fully qualified name of one of the labels.
pub open spec fn is_desired(domain: Seq<char>, labels: Seq<Seq<char>>, name: Seq<char>) -> bool {
    exists|i: int| 0 <= i < labels.len() && #[trigger] fqdn(labels[i], domain) == name
}

/// Whether some A record among `records` carries `name`.
pub open spec fn has_a_named(records: Seq<RecordView>, name: Seq<char>) -> bool {
    exists|j: int| 0 <= j < records.len() && is_a(#[trigger] records[j]) && records[j].name == name
}

/// The desired pairs whose name has no A record.
pub open spec fn plan_creates(
    domain: Seq<char>,
    labels: Seq<Seq<char>>,
    records: Seq<RecordView>,
) -> Seq<(Seq<char>, Seq<char>)> {
    desired_pairs(domain, labels).filter(|p: (Seq<char>, Seq<char>)| !has_a_named(records, p.0))
}

/// Whether an A record's address differs from `ip` while its name is desired.
pub open spec fn drifted(domain: Seq<char>, labels: Seq<Seq<char>>, ip: Seq<char>, r: RecordView) -> bool {
    is_a(r) && is_desired(domain, labels, r.name) && r.content != ip
}

/// Whether an A record's name is not desired.
pub open spec fn orphaned(domain: Seq<char>, labels: Seq<Seq<char>>, r: RecordView) -> bool {
    is_a(r) && !is_desired(domain, labels, r.name)
}

/// A record with its address replaced by `ip` and the fixed TTL.
pub open spec fn pointed_at(r: RecordView, ip: Seq<char>) -> RecordView {
    RecordView { content: ip, ttl: planned_ttl(), ..r }
}

/// The drifted records, each as it is to be written: pointing at `ip`, with
/// the fixed TTL.
pub open spec fn plan_updates(
    domain: Seq<char>,
    labels: Seq<Seq<char>>,
    ip: Seq<char>,
    records: Seq<RecordView>,
) -> Seq<RecordView> {
    records.filter(|r: RecordView| drifted(domain, labels, ip, r)).map_values(
        |r: RecordView| pointed_at(r, ip),
    )
}

/// The orphaned A records.
pub open spec fn plan_deletes(
    domain: Seq<char>,
    labels: Seq<Seq<char>>,
    records: Seq<RecordView>,
) -> Seq<RecordView> {
    records.filter(|r: RecordView| orphaned(domain, labels, r))
}

/// Builds `label.domain`.
pub fn fully_qualified_name(label: &str, domain: &str) -> (r: String)
    ensures
        r@ == fqdn(label@, domain@),
{
    let mut r = label.to_owned();
    r.append(".");
    proof {
        reveal_strlit(".");
        assert("."@ =~= seq!['.']);
    }
    r.append(domain);
    r
}

/// Whether a record's type is `A`.
pub fn is_a_record(r: &DnsRecord) -> (b: bool)
    ensures
        b == is_a(r@),
{
    let a = "A".to_owned();
    proof {
        reveal_strlit("A");
        assert(a@ =~= a_type());
    }
    r.record_type == a
}

/// The create, update and delete operations that bring a domain's A records in
/// line with the desired subdomains.
pub struct ReconciliationPlan {
    /// `(fully qualified name, label)` of each record to create.
    pub to_create: Vec<(String, String)>,
    /// Each drifted record, already pointing at the current address and
    /// carrying the fixed TTL.
    pub to_update: Vec<DnsRecord>,
    /// Each orphaned A record.
    pub to_delete: Vec<DnsRecord>,
}

/// The views of a sequence of `(name, label)` pairs.
pub open spec fn pair_views(s: Seq<(String, String)>) -> Seq<(Seq<char>, Seq<char>)> {
    s.map_values(|p: (String, String)| (p.0@, p.1@))
}

/// Whether some A record among `records` carries `name`.
pub fn has_a_record_named(records: &Vec<DnsRecord>, name: &String) -> (b: bool)
    ensures
        b == has_a_named(record_views(records@), name@),
{
    let n = records.len();
    let mut j: usize = 0;
    while j < n
        invariant
            n == records@.len(),
            j <= n,
            forall|k: int|
                0 <= k < j ==> !(is_a(#[trigger] record_views(records@)[k]) && record_views(
                    records@,
                )[k].name == name@),
        decreases n - j,
    {
        let r = &records[j];
        if is_a_record(r) && r.name == *name {
            assert(record_views(records@)[j as int] == r@);
            return true;
        }
        j = j + 1;
    }
    false
}

/// Whether `name` is `label.domain` for one of the labels.
pub fn name_is_desired(domain: &str, sub_domains: &Vec<String>, name: &String) -> (b: bool)
    ensures
        b == is_desired(domain@, label_views(sub_domains@), name@),
{
    let n = sub_domains.len();
    let mut i: usize = 0;
    while i < n
        invariant
            n == sub_domains@.len(),
            i <= n,
            forall|k: int|
                0 <= k < i ==> #[trigger] fqdn(label_views(sub_domains@)[k], domain@) != name@,
        decreases n - i,
    {
        let full = fully_qualified_name(sub_domains[i].as_str(), domain);
        if full == *name {
            assert(fqdn(label_views(sub_domains@)[i as int], domain@) == name@);
            return true;
        }
        i = i + 1;
    }
    false
}

/// Computes the plan for `domain` with the desired `sub_domains`, the current
/// public address `current_ip` and the provider's `records`.
pub fn plan_reconciliation(
    domain: &str,
    sub_domains: &Vec<String>,
    current_ip: &str,
    records: &Vec<DnsRecord>,
) -> (plan: ReconciliationPlan)
    ensures
        pair_views(plan.to_create@) == plan_creates(
            domain@,
            label_views(sub_domains@),
            record_views(records@),
        ),
        record_views(plan.to_update@) == plan_updates(
            domain@,
            label_views(sub_domains@),
            current_ip@,
            record_views(records@),
        ),
        record_views(plan.to_delete@) == plan_deletes(
            domain@,
            label_views(sub_domains@),
            record_views(records@),
        ),
{
    let ghost d = domain@;
    let ghost lv = label_views(sub_domains@);
    let ghost rv = record_views(records@);
    let mut to_create: Vec<(String, String)> = Vec::new();
    let n = sub_domains.len();
    let mut i: usize = 0;
    while i < n
        invariant
            n == sub_domains@.len(),
            i <= n,
            d == domain@,
            lv == label_views(sub_domains@),
            rv == record_views(records@),
            pair_views(to_create@) == plan_creates(d, lv.take(i as int), rv),
        decreases n - i,
    {
        let label = &sub_domains[i];
        let name = fully_qualified_name(label.as_str(), domain);
        let present = has_a_record_named(records, &name);
        let ghost before = to_create@;
        let ghost pair = (name@, label@);
        let ghost pred = |p: (Seq<char>, Seq<char>)| !has_a_named(rv, p.0);
        proof {
            assert(lv.take(i + 1) =~= lv.take(i as int).push(lv[i as int]));
            assert(desired_pairs(d, lv.take(i + 1)) =~= desired_pairs(d, lv.take(i as int)).push(
                pair,
            ));
            desired_pairs(d, lv.take(i as int)).lemma_filter_push(pair, pred);
        }
        if !present {
            to_create.push((name, label.clone()));
            proof {
                assert(pair_views(to_create@) =~= pair_views(before).push(pair));
            }
        }
        i = i + 1;
    }
    proof {
        assert(lv.take(n as int) =~= lv);
    }

    let ip = current_ip.to_owned();
    let mut to_update: Vec<DnsRecord> = Vec::new();
    let mut to_delete: Vec<DnsRecord> = Vec::new();
    let m = records.len();
    let mut j: usize = 0;
    while j < m
        invariant
            m == records@.len(),
            j <= m,
            d == domain@,
            lv == label_views(sub_domains@),
            rv == record_views(records@),
            ip@ == current_ip@,
            record_views(to_update@) == plan_updates(d, lv, ip@, rv.take(j as int)),
            record_views(to_delete@) == plan_deletes(d, lv, rv.take(j as int)),
        decreases m - j,
    {
        let r = &records[j];
        let ghost upd_before = to_update@;
        let ghost del_before = to_delete@;
        let ghost drift = |x: RecordView| drifted(d, lv, ip@, x);
        let ghost orphan = |x: RecordView| orphaned(d, lv, x);
        proof {
            assert(rv[j as int] == r@);
            assert(rv.take(j + 1) =~= rv.take(j as int).push(r@));
            rv.take(j as int).lemma_filter_push(r@, drift);
            rv.take(j as int).lemma_filter_push(r@, orphan);
            assert(rv.take(j as int).filter(drift).push(r@).map_values(
                |x: RecordView| pointed_at(x, ip@),
            ) =~= rv.take(j as int).filter(drift).map_values(
                |x: RecordView| pointed_at(x, ip@),
            ).push(pointed_at(r@, ip@)));
        }
        if is_a_record(r) {
            if !name_is_desired(domain, sub_domains, &r.name) {
                to_delete.push(r.duplicate());
                proof {
                    assert(record_views(to_delete@) =~= record_views(del_before).push(r@));
                }
            } else if !(r.content == ip) {
                let mut u = r.duplicate();
                u.content = ip.clone();
                u.ttl = RECORD_TTL.to_owned();
                proof {
                    reveal_strlit("600");
                    assert(u.ttl@ =~= planned_ttl());
                }
                to_update.push(u);
                proof {
                    assert(u@ == pointed_at(r@, ip@));
                    assert(record_views(to_update@) =~= record_views(upd_before).push(u@));
                }
            }
        }
        j = j + 1;
    }
    proof {
        assert(rv.take(m as int) =~= rv);
    }
    ReconciliationPlan { to_create, to_update, to_delete }
}

/// One call to the provider that carries out part of a plan.
pub enum RecordCall {
    /// Create an A record for the label `sub_domain`, named `name`.
    Create { name: String, sub_domain: String },
    /// Write `record` over the record with its id.
    Update { record: DnsRecord },
    /// Delete the record with the id of `record`.
    Delete { record: DnsRecord },
}

/// The mathematical value of a [`RecordCall`].
pub enum CallView {
    Create { name: Seq<char>, sub_domain: Seq<char> },
    Update { record: RecordView },
    Delete { record: RecordView },
}

impl View for RecordCall {
    type V = CallView;

    open spec fn view(&self) -> CallView {
        match self {
            RecordCall::Create { name, sub_domain } => CallView::Create {
                name: name@,
                sub_domain: sub_domain@,
            },
            RecordCall::Update { record } => CallView::Update { record: record@ },
            RecordCall::Delete { record } => CallView::Delete { record: record@ },
        }
    }
}

pub open spec fn call_views(s: Seq<RecordCall>) -> Seq<CallView> {
    s.map_values(|c: RecordCall| c@)
}

pub open spec fn create_call(p: (Seq<char>, Seq<char>)) -> CallView {
    CallView::Create { name: p.0, sub_domain: p.1 }
}

pub open spec fn update_call(r: RecordView) -> CallView {
    CallView::Update { record: r }
}

pub open spec fn delete_call(r: RecordView) -> CallView {
    CallView::Delete { record: r }
}

pub open spec fn create_calls(s: Seq<(Seq<char>, Seq<char>)>) -> Seq<CallView> {
    s.map_values(|p: (Seq<char>, Seq<char>)| create_call(p))
}

pub open spec fn update_calls(s: Seq<RecordView>) -> Seq<CallView> {
    s.map_values(|r: RecordView| update_call(r))
}

pub open spec fn delete_calls(s: Seq<RecordView>) -> Seq<CallView> {
    s.map_values(|r: RecordView| delete_call(r))
}

/// The calls that carry a plan out, in order: every creation, then every
/// update, then every deletion, each group in the plan's order.
pub open spec fn ordered_calls(
    creates: Seq<(Seq<char>, Seq<char>)>,
    updates: Seq<RecordView>,
    deletes: Seq<RecordView>,
) -> Seq<CallView> {
    create_calls(creates) + update_calls(updates) + delete_calls(deletes)
}

impl ReconciliationPlan {
    /// The provider calls that carry this plan out, in the order they are made.
    pub fn calls(&self) -> (c: Vec<RecordCall>)
        ensures
            call_views(c@) == ordered_calls(
                pair_views(self.to_create@),
                record_views(self.to_update@),
                record_views(self.to_delete@),
            ),
    {
        let ghost cv = pair_views(self.to_create@);
        let ghost uv = record_views(self.to_update@);
        let ghost dv = record_views(self.to_delete@);
        let mut calls: Vec<RecordCall> = Vec::new();
        let mut i: usize = 0;
        while i < self.to_create.len()
            invariant
                i <= self.to_create@.len(),
                cv == pair_views(self.to_create@),
                call_views(calls@) == create_calls(cv.take(i as int)),
            decreases self.to_create@.len() - i,
        {
            let (name, sub_domain) = &self.to_create[i];
            let ghost before = calls@;
            let c = RecordCall::Create { name: name.clone(), sub_domain: sub_domain.clone() };
            proof {
                assert(cv[i as int] == (name@, sub_domain@));
                assert(c@ == create_call(cv[i as int]));
            }
            calls.push(c);
            proof {
                assert(cv.take(i + 1) =~= cv.take(i as int).push(cv[i as int]));
                assert(call_views(calls@) =~= call_views(before).push(create_call(cv[i as int])));
                assert(create_calls(cv.take(i + 1)) =~= create_calls(cv.take(i as int)).push(
                    create_call(cv[i as int]),
                ));
            }
            i = i + 1;
        }
        proof {
            assert(cv.take(i as int) =~= cv);
        }
        let ghost head = create_calls(cv);
        let mut j: usize = 0;
        while j < self.to_update.len()
            invariant
                j <= self.to_update@.len(),
                uv == record_views(self.to_update@),
                call_views(calls@) == head + update_calls(uv.take(j as int)),
            decreases self.to_update@.len() - j,
        {
            let ghost before = calls@;
            let c = RecordCall::Update { record: self.to_update[j].duplicate() };
            proof {
                assert(uv[j as int] == self.to_update@[j as int]@);
                assert(c@ == update_call(uv[j as int]));
            }
            calls.push(c);
            proof {
                assert(uv.take(j + 1) =~= uv.take(j as int).push(uv[j as int]));
                assert(call_views(calls@) =~= call_views(before).push(update_call(uv[j as int])));
                assert(head + update_calls(uv.take(j + 1)) =~= (head + update_calls(uv.take(j as int))).push(update_call(uv[j as int])));
            }
            j = j + 1;
        }
        proof {
            assert(uv.take(j as int) =~= uv);
        }
        let ghost middle = head + update_calls(uv);
        let mut k: usize = 0;
        while k < self.to_delete.len()
            invariant
                k <= self.to_delete@.len(),
                dv == record_views(self.to_delete@),
                call_views(calls@) == middle + delete_calls(dv.take(k as int)),
            decreases self.to_delete@.len() - k,
        {
            let ghost before = calls@;
            let c = RecordCall::Delete { record: self.to_delete[k].duplicate() };
            proof {
                assert(dv[k as int] == self.to_delete@[k as int]@);
                assert(c@ == delete_call(dv[k as int]));
            }
            calls.push(c);
            proof {
                assert(dv.take(k + 1) =~= dv.take(k as int).push(dv[k as int]));
                assert(call_views(calls@) =~= call_views(before).push(delete_call(dv[k as int])));
                assert(middle + delete_calls(dv.take(k + 1)) =~= (middle + delete_calls(dv.take(k as int))).push(delete_call(dv[k as int])));
            }
            k = k + 1;
        }
        proof {
            assert(dv.take(k as int) =~= dv);
        }
        calls
    }
}

/// A filter keeps nothing when no element meets the predicate.
proof fn lemma_filter_none<A>(s: Seq<A>, pred: spec_fn(A) -> bool)
    requires
        forall|i: int| 0 <= i < s.len() ==> !pred(#[trigger] s[i]),
    ensures
        s.filter(pred).len() == 0,
{
    if s.filter(pred).len() > 0 {
        let x = s.filter(pred)[0];
        assert(s.filter(pred).contains(x));
        s.lemma_filter_contains_rev(pred, x);
        let i = choose|i: int| 0 <= i < s.len() && s[i] == x;
        assert(!pred(s[i]));
    }
}

/// A planned creation is always for a desired name.
proof fn lemma_created_is_desired(
    domain: Seq<char>,
    labels: Seq<Seq<char>>,
    records: Seq<RecordView>,
    i: int,
)
    requires
        0 <= i < plan_creates(domain, labels, records).len(),
    ensures
        is_desired(domain, labels, plan_creates(domain, labels, records)[i].0),
        !has_a_named(records, plan_creates(domain, labels, records)[i].0),
{
    let pred = |p: (Seq<char>, Seq<char>)| !has_a_named(records, p.0);
    let c = plan_creates(domain, labels, records)[i];
    assert(desired_pairs(domain, labels).filter(pred).contains(c));
    desired_pairs(domain, labels).lemma_filter_contains_rev(pred, c);
    let k = choose|k: int| 0 <= k < desired_pairs(domain, labels).len() && desired_pairs(domain, labels)[k] == c;
    assert(fqdn(labels[k], domain) == c.0);
}

/// No name is both created and deleted: a created name is desired and has no
/// A record, while every deleted record is an A record whose name is not
/// desired.
pub proof fn lemma_created_names_not_deleted(
    domain: Seq<char>,
    labels: Seq<Seq<char>>,
    records: Seq<RecordView>,
)
    ensures
        forall|i: int, j: int|
            0 <= i < plan_creates(domain, labels, records).len() && 0 <= j < plan_deletes(
                domain,
                labels,
                records,
            ).len() ==> #[trigger] plan_creates(domain, labels, records)[i].0 != #[trigger] plan_deletes(
                domain,
                labels,
                records,
            )[j].name,
{
    assert forall|i: int, j: int|
        0 <= i < plan_creates(domain, labels, records).len() && 0 <= j < plan_deletes(
            domain,
            labels,
            records,
        ).len() implies #[trigger] plan_creates(domain, labels, records)[i].0 != #[trigger] plan_deletes(
        domain,
        labels,
        records,
    )[j].name by {
        lemma_created_is_desired(domain, labels, records, i);
        let pred = |r: RecordView| orphaned(domain, labels, r);
        assert(pred(records.filter(pred)[j]));
    }
}

/// No record is both updated and deleted: every update is for a desired
/// name, every deletion for a name that is not desired.
pub proof fn lemma_updates_and_deletes_disjoint(
    domain: Seq<char>,
    labels: Seq<Seq<char>>,
    ip: Seq<char>,
    records: Seq<RecordView>,
)
    ensures
        forall|i: int, j: int|
            0 <= i < plan_updates(domain, labels, ip, records).len() && 0 <= j < plan_deletes(
                domain,
                labels,
                records,
            ).len() ==> #[trigger] plan_updates(domain, labels, ip, records)[i].name
                != #[trigger] plan_deletes(domain, labels, records)[j].name,
{
    let drift = |r: RecordView| drifted(domain, labels, ip, r);
    let orphan = |r: RecordView| orphaned(domain, labels, r);
    assert forall|i: int, j: int|
        0 <= i < plan_updates(domain, labels, ip, records).len() && 0 <= j < plan_deletes(
            domain,
            labels,
            records,
        ).len() implies #[trigger] plan_updates(domain, labels, ip, records)[i].name
        != #[trigger] plan_deletes(domain, labels, records)[j].name by {
        assert(drift(records.filter(drift)[i]));
        assert(orphan(records.filter(orphan)[j]));
    }
}

/// An A record whose name is desired and whose address differs from the
/// current one is updated to exactly the current address, and is not deleted.
pub proof fn lemma_drifted_record_updated(
    domain: Seq<char>,
    labels: Seq<Seq<char>>,
    ip: Seq<char>,
    records: Seq<RecordView>,
    k: int,
)
    requires
        0 <= k < records.len(),
        is_a(records[k]),
        is_desired(domain, labels, records[k].name),
        records[k].content != ip,
    ensures
        plan_updates(domain, labels, ip, records).contains(pointed_at(records[k], ip)),
        !plan_deletes(domain, labels, records).contains(records[k]),
{
    let drift = |r: RecordView| drifted(domain, labels, ip, r);
    let orphan = |r: RecordView| orphaned(domain, labels, r);
    assert(records.filter(drift).contains(records[k]));
    let t = choose|t: int| 0 <= t < records.filter(drift).len() && records.filter(drift)[t] == records[k];
    assert(plan_updates(domain, labels, ip, records)[t] == pointed_at(records[k], ip));
    if plan_deletes(domain, labels, records).contains(records[k]) {
        let u = choose|u: int| 0 <= u < records.filter(orphan).len() && records.filter(orphan)[u] == records[k];
        assert(orphan(records.filter(orphan)[u]));
    }
}

/// Records of another type than A change nothing in the plan, wherever they
/// stand among the records and whatever their name.
pub proof fn lemma_other_types_ignored(
    domain: Seq<char>,
    labels: Seq<Seq<char>>,
    ip: Seq<char>,
    records: Seq<RecordView>,
    k: int,
    other: RecordView,
)
    requires
        0 <= k <= records.len(),
        !is_a(other),
    ensures
        plan_creates(domain, labels, records.insert(k, other)) == plan_creates(
            domain,
            labels,
            records,
        ),
        plan_updates(domain, labels, ip, records.insert(k, other)) == plan_updates(
            domain,
            labels,
            ip,
            records,
        ),
        plan_deletes(domain, labels, records.insert(k, other)) == plan_deletes(
            domain,
            labels,
            records,
        ),
{
    let ins = records.insert(k, other);
    let a = records.take(k);
    let b = records.skip(k);
    assert(ins =~= a + seq![other] + b);
    assert(records =~= a + b);
    assert forall|n: Seq<char>| has_a_named(ins, n) == has_a_named(records, n) by {
        if has_a_named(ins, n) {
            let j = choose|j: int| 0 <= j < ins.len() && is_a(#[trigger] ins[j]) && ins[j].name == n;
            if j < k {
                assert(records[j] == ins[j]);
            } else {
                assert(records[j - 1] == ins[j]);
            }
        }
        if has_a_named(records, n) {
            let j = choose|j: int| 0 <= j < records.len() && is_a(#[trigger] records[j]) && records[j].name == n;
            if j < k {
                assert(ins[j] == records[j]);
            } else {
                assert(ins[j + 1] == records[j]);
            }
        }
    }
    let pi = |p: (Seq<char>, Seq<char>)| !has_a_named(ins, p.0);
    let pr = |p: (Seq<char>, Seq<char>)| !has_a_named(records, p.0);
    assert(pi =~= pr);

    let drift = |r: RecordView| drifted(domain, labels, ip, r);
    let orphan = |r: RecordView| orphaned(domain, labels, r);
    let fix = |r: RecordView| pointed_at(r, ip);
    lemma_filter_none(seq![other], drift);
    lemma_filter_none(seq![other], orphan);
    Seq::filter_distributes_over_add(a, seq![other], drift);
    Seq::filter_distributes_over_add(a + seq![other], b, drift);
    Seq::filter_distributes_over_add(a, b, drift);
    Seq::filter_distributes_over_add(a, seq![other], orphan);
    Seq::filter_distributes_over_add(a + seq![other], b, orphan);
    Seq::filter_distributes_over_add(a, b, orphan);
    assert(ins.filter(drift) =~= records.filter(drift));
    assert(ins.filter(orphan) =~= records.filter(orphan));
}

/// Whether an A record named `name` stands once the plan is carried out:
/// either an A record with a desired name that was kept, or a created one.
pub open spec fn applied_name(
    domain: Seq<char>,
    labels: Seq<Seq<char>>,
    records: Seq<RecordView>,
    name: Seq<char>,
) -> bool {
    ||| has_a_named(records, name) && is_desired(domain, labels, name)
    ||| exists|t: int|
        0 <= t < plan_creates(domain, labels, records).len() && #[trigger] plan_creates(
            domain,
            labels,
            records,
        )[t].0 == name
}

/// Whether `listing`, in any order and with any ids, TTLs or other fields,
/// shows the plan for `records` carried out with address `ip`: its A records
/// are exactly those that the plan keeps or creates, all pointing at `ip`.
pub open spec fn shows_applied_plan(
    domain: Seq<char>,
    labels: Seq<Seq<char>>,
    ip: Seq<char>,
    records: Seq<RecordView>,
    listing: Seq<RecordView>,
) -> bool {
    &&& forall|i: int|
        0 <= i < listing.len() && is_a(#[trigger] listing[i]) ==> listing[i].content == ip
            && applied_name(domain, labels, records, listing[i].name)
    &&& forall|n: Seq<char>|
        #[trigger] applied_name(domain, labels, records, n) ==> has_a_named(listing, n)
}

/// Reconciling a second time, with the address unchanged, plans nothing:
/// once the first plan is carried out, whatever order the provider lists the
/// records in, every desired name has an A record, and every A record has a
/// desired name and the current address.
pub proof fn lemma_second_run_is_empty(
    domain: Seq<char>,
    labels: Seq<Seq<char>>,
    ip: Seq<char>,
    records: Seq<RecordView>,
    listing: Seq<RecordView>,
)
    requires
        shows_applied_plan(domain, labels, ip, records, listing),
    ensures
        plan_creates(domain, labels, listing).len() == 0,
        plan_updates(domain, labels, ip, listing).len() == 0,
        plan_deletes(domain, labels, listing).len() == 0,
{
    let drift = |r: RecordView| drifted(domain, labels, ip, r);
    let orphan = |r: RecordView| orphaned(domain, labels, r);
    let creates = plan_creates(domain, labels, records);
    assert forall|i: int| 0 <= i < listing.len() implies !drift(#[trigger] listing[i]) && !orphan(
        listing[i],
    ) by {
        if is_a(listing[i]) {
            let n = listing[i].name;
            assert(applied_name(domain, labels, records, n));
            if !(has_a_named(records, n) && is_desired(domain, labels, n)) {
                let t = choose|t: int| 0 <= t < creates.len() && #[trigger] creates[t].0 == n;
                lemma_created_is_desired(domain, labels, records, t);
            }
        }
    }
    lemma_filter_none(listing, drift);
    lemma_filter_none(listing, orphan);

    let absent = |p: (Seq<char>, Seq<char>)| !has_a_named(listing, p.0);
    let pairs = desired_pairs(domain, labels);
    assert forall|k: int| 0 <= k < pairs.len() implies !absent(#[trigger] pairs[k]) by {
        let p = pairs[k];
        assert(fqdn(labels[k], domain) == p.0);
        if !has_a_named(records, p.0) {
            let pred = |q: (Seq<char>, Seq<char>)| !has_a_named(records, q.0);
            assert(pred(pairs[k]));
            assert(creates.contains(p));
            let t = choose|t: int| 0 <= t < creates.len() && creates[t] == p;
            assert(creates[t].0 == p.0);
        }
        assert(applied_name(domain, labels, records, p.0));
    }
    lemma_filter_none(pairs, absent);
}

} // verus!
