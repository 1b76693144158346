//! The webhook's decision core: which backend rows surface as records (the
//! ownership-tag filter), and which backend calls a batch of record intents
//! gives rise to.  The HTTP server around it is a thin collaborator.

use vstd::prelude::*;

use crate::errors::{ClientError, MappingError};
use crate::models::{
    HostAlias, HostAliasRowV, HostOverride, HostOverrideRowV, HostOverrideType, NewHostOverride,
    NewHostOverrideV, Uuid,
};
use crate::records::{alias_record, override_record, Record, RecordType, RecordV};
use crate::text::{dns_name_to_hostname_and_domain, has_prefix, split_dns, str_starts_with};

verus! {

/// Description prefix that tags a backend entry as managed by this system.
/// It is the sole read-side authorization filter, and every create stamps
/// it; the filter and the creator share this one constant.
pub const RECORD_DESCRIPTION_PREFIX: &'static str = "_ouw_";

/// Whether a backend row is managed by this system: enabled, and tagged
/// with the ownership prefix.
pub open spec fn spec_managed(enabled: bool, description: Seq<char>) -> bool {
    enabled && has_prefix(description, RECORD_DESCRIPTION_PREFIX@)
}

/// The managed test on a host override row.
pub open spec fn managed_override(row: HostOverrideRowV) -> bool {
    spec_managed(row.enabled, row.description)
}

/// The managed test on a host alias row.
pub open spec fn managed_alias(row: HostAliasRowV) -> bool {
    spec_managed(row.enabled, row.description)
}

/// Decide whether a row with these fields is managed by this system.
pub fn is_managed(enabled: bool, description: &str) -> (r: bool)
    ensures
        r == spec_managed(enabled, description@),
{
    enabled && str_starts_with(description, RECORD_DESCRIPTION_PREFIX)
}

/// The records a sequence of host override rows surfaces: one A record per
/// managed row, in row order; rows disabled or without the ownership
/// prefix contribute nothing.
pub open spec fn listed_override_records(rows: Seq<HostOverrideRowV>) -> Seq<RecordV>
    decreases rows.len(),
{
    if rows.len() == 0 {
        Seq::empty()
    } else {
        listed_override_records(rows.drop_last()) + if managed_override(rows.last()) {
            seq![override_record(rows.last())]
        } else {
            Seq::empty()
        }
    }
}

/// The records a sequence of host alias rows surfaces: one CNAME record
/// per managed row, in row order.
pub open spec fn listed_alias_records(rows: Seq<HostAliasRowV>) -> Seq<RecordV>
    decreases rows.len(),
{
    if rows.len() == 0 {
        Seq::empty()
    } else {
        listed_alias_records(rows.drop_last()) + if managed_alias(rows.last()) {
            seq![alias_record(rows.last())]
        } else {
            Seq::empty()
        }
    }
}

/// The full listing: the managed override records followed by the managed
/// alias records.
pub open spec fn listed_records(
    overrides: Seq<HostOverrideRowV>,
    aliases: Seq<HostAliasRowV>,
) -> Seq<RecordV> {
    listed_override_records(overrides) + listed_alias_records(aliases)
}

/// Materialize the records of the two backend searches: overrides as A
/// records, aliases as CNAME records, managed rows only.
pub fn records_get(overrides: &HostOverride, aliases: &HostAlias) -> (r: Vec<Record>)
    ensures
        r.deep_view() == listed_records(overrides.rows.deep_view(), aliases.rows.deep_view()),
{
    let mut resp: Vec<Record> = Vec::new();
    let mut i: usize = 0;
    while i < overrides.rows.len()
        invariant
            i <= overrides.rows@.len(),
            resp.deep_view() =~= listed_override_records(
                overrides.rows.deep_view().take(i as int),
            ),
        decreases overrides.rows@.len() - i,
    {
        let ghost rows = overrides.rows.deep_view();
        let row = &overrides.rows[i];
        if is_managed(row.enabled, row.description.as_str()) {
            resp.push(Record::from_host_override_row(row));
        }
        i = i + 1;
        proof {
            assert(rows.take(i as int).drop_last() =~= rows.take(i as int - 1));
            assert(rows.take(i as int).last() == rows[i as int - 1]);
        }
    }
    proof {
        assert(overrides.rows.deep_view().take(overrides.rows@.len() as int) =~= overrides
            .rows
            .deep_view());
    }
    let mut j: usize = 0;
    while j < aliases.rows.len()
        invariant
            j <= aliases.rows@.len(),
            resp.deep_view() =~= listed_override_records(overrides.rows.deep_view())
                + listed_alias_records(aliases.rows.deep_view().take(j as int)),
        decreases aliases.rows@.len() - j,
    {
        let ghost rows = aliases.rows.deep_view();
        let ghost prev = resp.deep_view();
        let row = &aliases.rows[j];
        if is_managed(row.enabled, row.description.as_str()) {
            resp.push(Record::from_host_alias_row(row));
            proof {
                assert(resp.deep_view() =~= prev.push(alias_record(rows[j as int])));
            }
        }
        j = j + 1;
        proof {
            assert(rows.take(j as int).drop_last() =~= rows.take(j as int - 1));
            assert(rows.take(j as int).last() == rows[j as int - 1]);
            if managed_alias(rows[j as int - 1]) {
                assert(resp.deep_view() =~= listed_override_records(overrides.rows.deep_view())
                    + listed_alias_records(rows.take(j as int)));
            }
        }
    }
    proof {
        assert(aliases.rows.deep_view().take(aliases.rows@.len() as int) =~= aliases
            .rows
            .deep_view());
    }
    resp
}

/// Every record in a listing of override rows arises from a managed row.
proof fn lemma_listed_override_member(rows: Seq<HostOverrideRowV>, j: int)
    requires
        0 <= j < listed_override_records(rows).len(),
    ensures
        exists|i: int|
            0 <= i < rows.len() && #[trigger] managed_override(rows[i])
                && listed_override_records(rows)[j] == override_record(rows[i]),
    decreases rows.len(),
{
    let prev = listed_override_records(rows.drop_last());
    if j < prev.len() {
        lemma_listed_override_member(rows.drop_last(), j);
        let i = choose|i: int|
            0 <= i < rows.drop_last().len() && #[trigger] managed_override(rows.drop_last()[i])
                && listed_override_records(rows.drop_last())[j] == override_record(
                rows.drop_last()[i],
            );
        assert(rows.drop_last()[i] == rows[i]);
        assert(managed_override(rows[i]));
    } else {
        assert(managed_override(rows.last()));
        assert(rows.last() == rows[rows.len() - 1]);
    }
}

/// Every record in a listing of alias rows arises from a managed row.
proof fn lemma_listed_alias_member(rows: Seq<HostAliasRowV>, j: int)
    requires
        0 <= j < listed_alias_records(rows).len(),
    ensures
        exists|i: int|
            0 <= i < rows.len() && #[trigger] managed_alias(rows[i])
                && listed_alias_records(rows)[j] == alias_record(rows[i]),
    decreases rows.len(),
{
    let prev = listed_alias_records(rows.drop_last());
    if j < prev.len() {
        lemma_listed_alias_member(rows.drop_last(), j);
        let i = choose|i: int|
            0 <= i < rows.drop_last().len() && #[trigger] managed_alias(rows.drop_last()[i])
                && listed_alias_records(rows.drop_last())[j] == alias_record(rows.drop_last()[i]);
        assert(rows.drop_last()[i] == rows[i]);
        assert(managed_alias(rows[i]));
    } else {
        assert(managed_alias(rows.last()));
        assert(rows.last() == rows[rows.len() - 1]);
    }
}

/// The listing never includes a record for a row that is disabled or whose
/// description lacks the ownership prefix: every listed record arises from
/// some managed row of the corresponding search.
pub proof fn lemma_listing_only_managed(
    overrides: Seq<HostOverrideRowV>,
    aliases: Seq<HostAliasRowV>,
    j: int,
)
    requires
        0 <= j < listed_records(overrides, aliases).len(),
    ensures
        (exists|i: int|
            0 <= i < overrides.len() && #[trigger] managed_override(overrides[i])
                && listed_records(overrides, aliases)[j] == override_record(overrides[i])) || (
        exists|i: int|
            0 <= i < aliases.len() && #[trigger] managed_alias(aliases[i]) && listed_records(
                overrides,
                aliases,
            )[j] == alias_record(aliases[i])),
{
    let o = listed_override_records(overrides);
    if j < o.len() {
        lemma_listed_override_member(overrides, j);
    } else {
        lemma_listed_alias_member(aliases, j - o.len());
    }
}

/// Payload of one add-override call: one target of an A record intent,
/// enabled, with the mail filler fields present but empty, and the
/// description set to exactly the ownership tag.
pub open spec fn override_payload(
    hostname: Seq<char>,
    domain: Seq<char>,
    target: Seq<char>,
) -> NewHostOverrideV {
    NewHostOverrideV {
        enabled: true,
        hostname,
        domain,
        rr: HostOverrideType::A,
        mxprio: Seq::empty(),
        mx: Seq::empty(),
        server: target,
        description: RECORD_DESCRIPTION_PREFIX@,
    }
}

/// The add-override payloads one create intent gives rise to: one per
/// target for an A record; none for a CNAME, alias creation from generic
/// input being a deliberate no-op; failure when an A record's DNS name
/// holds no dot.
pub open spec fn record_create_plan(r: RecordV) -> Option<Seq<NewHostOverrideV>> {
    match r.record_type {
        RecordType::A => match split_dns(r.dns_name) {
            Some(parts) => Some(
                Seq::new(r.targets.len(), |i: int| override_payload(parts.0, parts.1, r.targets[i])),
            ),
            None => None,
        },
        RecordType::CNAME => Some(Seq::empty()),
    }
}

/// Plan of a whole create batch: the payloads of the intents preceding the
/// first unmappable one, in intent order, and the index of that intent if
/// any.  Processing stops at the failure, so payloads of earlier intents
/// stand; there is no cross-record transaction.
pub open spec fn batch_create_plan(create: Seq<RecordV>) -> (Seq<NewHostOverrideV>, Option<int>)
    decreases create.len(),
{
    if create.len() == 0 {
        (Seq::empty(), None)
    } else {
        match record_create_plan(create.first()) {
            None => (Seq::empty(), Some(0int)),
            Some(p) => {
                let rest = batch_create_plan(create.drop_first());
                (
                    p + rest.0,
                    match rest.1 {
                        Some(i) => Some(i + 1),
                        None => None,
                    },
                )
            },
        }
    }
}

/// Build the add-override payloads for one create intent: one payload per
/// target for an A record, none for a CNAME, and a mapping error when an A
/// record's DNS name cannot be split.
pub fn create_payloads_for_record(record: &Record) -> (r: Result<Vec<NewHostOverride>, MappingError>)
    ensures
        match record_create_plan(record@) {
            Some(p) => r matches Ok(v) && v.deep_view() == p,
            None => r matches Err(e) && e.dns_name@ == record@.dns_name,
        },
{
    match record.record_type {
        RecordType::A => {
            match dns_name_to_hostname_and_domain(record.dns_name.as_str()) {
                Some(parts) => {
                    let (hostname, domain) = parts;
                    let mut v: Vec<NewHostOverride> = Vec::new();
                    let mut i: usize = 0;
                    while i < record.targets.len()
                        invariant
                            i <= record.targets@.len(),
                            split_dns(record.dns_name@) == Some((hostname@, domain@)),
                            v.deep_view() =~= Seq::new(
                                i as nat,
                                |k: int|
                                    override_payload(
                                        hostname@,
                                        domain@,
                                        record.targets.deep_view()[k],
                                    ),
                            ),
                        decreases record.targets@.len() - i,
                    {
                        let ghost prev = v.deep_view();
                        v.push(
                            NewHostOverride {
                                enabled: true,
                                hostname: hostname.clone(),
                                domain: domain.clone(),
                                rr: HostOverrideType::A,
                                mxprio: String::new(),
                                mx: String::new(),
                                server: record.targets[i].clone(),
                                description: String::from_str(RECORD_DESCRIPTION_PREFIX),
                            },
                        );
                        i = i + 1;
                        proof {
                            assert(v.deep_view() =~= prev.push(
                                override_payload(
                                    hostname@,
                                    domain@,
                                    record.targets.deep_view()[i as int - 1],
                                ),
                            ));
                        }
                    }
                    proof {
                        assert(record@.targets =~= record.targets.deep_view());
                        assert(v.deep_view() =~= Seq::new(
                            record@.targets.len(),
                            |k: int| override_payload(hostname@, domain@, record@.targets[k]),
                        ));
                    }
                    Ok(v)
                },
                None => Err(MappingError { dns_name: record.dns_name.clone() }),
            }
        },
        RecordType::CNAME => {
            let v: Vec<NewHostOverride> = Vec::new();
            proof {
                assert(v.deep_view() =~= Seq::<NewHostOverrideV>::empty());
            }
            Ok(v)
        },
    }
}

/// Plan the suffix of the create list that starts at `i`.
fn plan_create_from(create: &Vec<Record>, i: usize) -> (r: (
    Vec<NewHostOverride>,
    Option<MappingError>,
))
    requires
        i <= create@.len(),
    ensures
        ({
            let plan = batch_create_plan(create.deep_view().skip(i as int));
            &&& r.0.deep_view() == plan.0
            &&& match plan.1 {
                Some(k) => r.1 matches Some(e) && e.dns_name@ == create.deep_view()[i + k].dns_name,
                None => r.1 is None,
            }
        }),
    decreases create@.len() - i,
{
    let ghost suffix = create.deep_view().skip(i as int);
    if i == create.len() {
        let v: Vec<NewHostOverride> = Vec::new();
        proof {
            assert(suffix =~= Seq::<RecordV>::empty());
            assert(v.deep_view() =~= Seq::<NewHostOverrideV>::empty());
        }
        (v, None)
    } else {
        proof {
            assert(suffix.first() == create.deep_view()[i as int]);
            assert(suffix.drop_first() =~= create.deep_view().skip(i as int + 1));
        }
        match create_payloads_for_record(&create[i]) {
            Err(e) => {
                let v: Vec<NewHostOverride> = Vec::new();
                proof {
                    assert(v.deep_view() =~= Seq::<NewHostOverrideV>::empty());
                }
                (v, Some(e))
            },
            Ok(mut v) => {
                let ghost head = v.deep_view();
                let (rest, err) = plan_create_from(create, i + 1);
                let ghost rest_deep = rest.deep_view();
                let mut rest_in = rest;
                v.append(&mut rest_in);
                proof {
                    assert(v.deep_view() =~= head + rest_deep);
                }
                (v, err)
            },
        }
    }
}

/// Plan a whole create batch: the add-override calls to issue, in intent
/// and target order, stopping at the first intent whose DNS name cannot be
/// mapped, whose error is returned beside the payloads already planned.
pub fn plan_create_batch(create: &Vec<Record>) -> (r: (Vec<NewHostOverride>, Option<MappingError>))
    ensures
        ({
            let plan = batch_create_plan(create.deep_view());
            &&& r.0.deep_view() == plan.0
            &&& match plan.1 {
                Some(k) => r.1 matches Some(e) && e.dns_name@ == create.deep_view()[k].dns_name,
                None => r.1 is None,
            }
        }),
{
    proof {
        assert(create.deep_view().skip(0) =~= create.deep_view());
    }
    plan_create_from(create, 0)
}

/// Whether every call of an applied batch succeeded; the outcomes stay
/// per-call, partial application is surfaced, never hidden.
pub fn batch_succeeded(outcomes: &Vec<Result<Uuid, ClientError>>) -> (b: bool)
    ensures
        b == (forall|j: int| 0 <= j < outcomes@.len() ==> outcomes@[j] is Ok),
{
    let mut i: usize = 0;
    while i < outcomes.len()
        invariant
            i <= outcomes@.len(),
            forall|j: int| 0 <= j < i ==> outcomes@[j] is Ok,
        decreases outcomes@.len() - i,
    {
        if outcomes[i].is_err() {
            return false;
        }
        i = i + 1;
    }
    true
}

/// Liveness probe body.
pub fn healthz() -> (r: &'static str)
    ensures
        r@ == "OK"@,
{
    "OK"
}

/// Endpoint adjustment: every proposed record is accepted unchanged.
pub fn adjust_endpoints(body: Vec<Record>) -> (r: Vec<Record>)
    ensures
        r@ == body@,
{
    body
}

} // verus!
