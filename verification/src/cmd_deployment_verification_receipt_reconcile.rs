use vstd::prelude::*;
use crate::cli::{
    empty_message, last_number, last_number_of, last_text, last_text_of, missing_arg,
    missing_message, opt_view, require_arg, require_filled, require_non_empty, rule, rules_view,
    scan, scan_args, texts_view, FlagRule, InlineForm, RuleSpec, ValueKind,
};
use crate::cli::{all_texts_of, texts_of};
use crate::evidence_source::{evidence_spec, parse_evidence_source, EvidenceSource};
use vstd::string::StringExecFns;
use crate::command_reconciliation::{reconciliation_status, status_text};
use crate::json::{items_view, lemma_array_view};
use crate::fields::{
    check_reads, first_read_failure, json_outcome, outcome, read, reads_view, str_field, str_of,
    u64_field, u64_of, value_field, value_of, CommandError, Failure, ReadKind,
};
use crate::fields::{or_else, push_opt_str, push_opt_text, with_opt_str, with_opt_text};
use crate::json::{entries_get, entries_view, object_from_pairs, object_of, Json, JsonValue};
use crate::text::{is_blank, owned, trimmed};

verus! {

/// The arguments of `deploy reconcile-verification-receipt`.
#[derive(Debug, PartialEq, Eq)]
pub struct ReceiptReconcileArgs {
    pub receipt: String,
    pub artifact_version: String,
    pub profile_name: String,
    pub verification_status: String,
    pub verified_at_unix_ms: u64,
    pub evidence: String,
    pub evidence_sources: Vec<EvidenceSource>,
    pub out_path: String,
}

pub struct ReceiptReconcileArgsView {
    pub receipt: Seq<char>,
    pub artifact_version: Seq<char>,
    pub profile_name: Seq<char>,
    pub verification_status: Seq<char>,
    pub verified_at_unix_ms: u64,
    pub evidence: Seq<char>,
    pub evidence_sources: Seq<(Seq<char>, Seq<char>, u64)>,
    pub out_path: Seq<char>,
}

impl View for ReceiptReconcileArgs {
    type V = ReceiptReconcileArgsView;

    open spec fn view(&self) -> ReceiptReconcileArgsView {
        ReceiptReconcileArgsView {
            receipt: self.receipt@,
            artifact_version: self.artifact_version@,
            profile_name: self.profile_name@,
            verification_status: self.verification_status@,
            verified_at_unix_ms: self.verified_at_unix_ms,
            evidence: self.evidence@,
            evidence_sources: sources_view(self.evidence_sources@),
            out_path: self.out_path@,
        }
    }
}

pub open spec fn sources_view(v: Seq<EvidenceSource>) -> Seq<(Seq<char>, Seq<char>, u64)> {
    Seq::new(v.len(), |i: int| v[i]@)
}

/// The evidence sources that accepted texts describe.
pub open spec fn sources_of(ts: Seq<Seq<char>>) -> Seq<(Seq<char>, Seq<char>, u64)> {
    Seq::new(ts.len(), |i: int| evidence_spec(ts[i], usage_text())->Ok_0)
}

pub open spec fn usage_text() -> Seq<char> {
    "usage: afterburner deploy reconcile-verification-receipt --receipt PATH --artifact-version VERSION --profile-name NAME --verification-status STATUS --verified-at-unix-ms MS --evidence TEXT --evidence-source ARTIFACT_PATH,EVENT_NAME,OBSERVED_AT_UNIX_MS [--evidence-source ...] [--out PATH]"@
}

pub fn usage() -> (r: &'static str)
    ensures
        r@ == usage_text(),
{
    "usage: afterburner deploy reconcile-verification-receipt --receipt PATH --artifact-version VERSION --profile-name NAME --verification-status STATUS --verified-at-unix-ms MS --evidence TEXT --evidence-source ARTIFACT_PATH,EVENT_NAME,OBSERVED_AT_UNIX_MS [--evidence-source ...] [--out PATH]"
}

pub open spec fn rules_spec() -> Seq<RuleSpec> {
    seq![
        RuleSpec { name: "--receipt"@, kind: ValueKind::Text, inline: InlineForm::StripAll },
        RuleSpec { name: "--artifact-version"@, kind: ValueKind::Text, inline: InlineForm::StripAll },
        RuleSpec { name: "--profile-name"@, kind: ValueKind::Text, inline: InlineForm::StripAll },
        RuleSpec { name: "--verification-status"@, kind: ValueKind::Text, inline: InlineForm::StripAll },
        RuleSpec { name: "--verified-at-unix-ms"@, kind: ValueKind::Number, inline: InlineForm::StripAll },
        RuleSpec { name: "--evidence"@, kind: ValueKind::Text, inline: InlineForm::StripAll },
        RuleSpec { name: "--evidence-source"@, kind: ValueKind::EvidenceSource, inline: InlineForm::StripAll },
        RuleSpec { name: "--out"@, kind: ValueKind::Text, inline: InlineForm::StripAll },
    ]
}

fn rules() -> (r: Vec<FlagRule>)
    ensures
        rules_view(r@) == rules_spec(),
{
    let mut r = Vec::new();
    r.push(rule("--receipt", ValueKind::Text, InlineForm::StripAll));
    r.push(rule("--artifact-version", ValueKind::Text, InlineForm::StripAll));
    r.push(rule("--profile-name", ValueKind::Text, InlineForm::StripAll));
    r.push(rule("--verification-status", ValueKind::Text, InlineForm::StripAll));
    r.push(rule("--verified-at-unix-ms", ValueKind::Number, InlineForm::StripAll));
    r.push(rule("--evidence", ValueKind::Text, InlineForm::StripAll));
    r.push(rule("--evidence-source", ValueKind::EvidenceSource, InlineForm::StripAll));
    r.push(rule("--out", ValueKind::Text, InlineForm::StripAll));
    assert(rules_view(r@) =~= rules_spec());
    r
}

/// The arguments that the command line gives, or why it is refused.
pub open spec fn parse_args_spec(args: Seq<Seq<char>>) -> Result<ReceiptReconcileArgsView, Failure> {
    match scan(rules_spec(), args, "deploy reconcile-verification-receipt"@, usage_text()) {
        Err(m) => Err(Failure::InvalidArg(m)),
        Ok(a) => if texts_of(a, 6).len() == 0 {
            Err(Failure::InvalidArg("at least one --evidence-source is required\n"@ + usage_text()))
        } else {
            match last_text(a, 0) {
                None => Err(Failure::InvalidArg(missing_message("--receipt"@, usage_text()))),
                Some(v_receipt) => {
                    match last_text(a, 1) {
                        None => Err(Failure::InvalidArg(missing_message("--artifact-version"@, usage_text()))),
                        Some(r_artifact_version) => if is_blank(r_artifact_version) { Err(Failure::InvalidArg(missing_message("--artifact-version"@, usage_text()))) } else {
                        let v_artifact_version = trimmed(r_artifact_version);
                            match last_text(a, 2) {
                                None => Err(Failure::InvalidArg(missing_message("--profile-name"@, usage_text()))),
                                Some(r_profile_name) => if is_blank(r_profile_name) { Err(Failure::InvalidArg(missing_message("--profile-name"@, usage_text()))) } else {
                                let v_profile_name = trimmed(r_profile_name);
                                    match last_text(a, 3) {
                                        None => Err(Failure::InvalidArg(missing_message("--verification-status"@, usage_text()))),
                                        Some(r_verification_status) => if is_blank(r_verification_status) { Err(Failure::InvalidArg(missing_message("--verification-status"@, usage_text()))) } else {
                                        let v_verification_status = trimmed(r_verification_status);
                                            match last_number(a, 4) {
                                                None => Err(Failure::InvalidArg(missing_message("--verified-at-unix-ms"@, usage_text()))),
                                                Some(v_verified_at_unix_ms) => {
                                                    match last_text(a, 5) {
                                                        None => Err(Failure::InvalidArg(missing_message("--evidence"@, usage_text()))),
                                                        Some(r_evidence) => if is_blank(r_evidence) { Err(Failure::InvalidArg(missing_message("--evidence"@, usage_text()))) } else {
                                                        let v_evidence = trimmed(r_evidence);
                                                            Ok(ReceiptReconcileArgsView {
                                                                receipt: v_receipt,
                                                                artifact_version: v_artifact_version,
                                                                profile_name: v_profile_name,
                                                                verification_status: v_verification_status,
                                                                verified_at_unix_ms: v_verified_at_unix_ms,
                                                                evidence: v_evidence,
                                                                evidence_sources: sources_of(texts_of(a, 6)),
                                                                out_path: match last_text(a, 7) { Some(p) => p, None => "artifacts/deploy/deployment_verification_receipt_reconciliation.json"@ },
                                                            })
                                                        }
                                                    }
                                                }
                                            }
                                        }
                                    }
                                }
                            }
                        }
                    }
                }
            }
        },
    }
}

pub fn parse_args(args: &Vec<String>) -> (r: Result<ReceiptReconcileArgs, CommandError>)
    ensures
        outcome(r) == parse_args_spec(texts_view(args@)),
{
    let rules = rules();
    let a = match scan_args(&rules, args, "deploy reconcile-verification-receipt", usage()) {
        Ok(a) => a,
        Err(m) => {
            return Err(CommandError::InvalidArg(m));
        },
    };
    let texts = all_texts_of(&a, 6);
    if texts.len() == 0 {
        let mut m = String::from_str("at least one --evidence-source is required\n");
        m.append(usage());
        proof {
            reveal_strlit("at least one --evidence-source is required\n");
        }
        return Err(CommandError::InvalidArg(m));
    }
    proof {
        crate::cli::lemma_scan_evidence_texts(rules_spec(), texts_view(args@), "deploy reconcile-verification-receipt"@, usage_text(), 6);
    }
    let ghost ts = texts_view(texts@);
    let mut evidence_sources: Vec<EvidenceSource> = Vec::new();
    let mut i: usize = 0;
    while i < texts.len()
        invariant
            ts == texts_view(texts@),
            i <= texts.len(),
            forall|j: int| 0 <= j < ts.len() ==> evidence_spec(#[trigger] ts[j], usage_text()) is Ok,
            sources_view(evidence_sources@) == sources_of(ts.take(i as int)),
        decreases texts.len() - i,
    {
        assert(ts[i as int] == texts[i as int]@);
        match parse_evidence_source(texts[i].as_str(), usage()) {
            Ok(e) => {
                let ghost before = sources_view(evidence_sources@);
                let ghost ev = e@;
                evidence_sources.push(e);
                assert(sources_view(evidence_sources@) =~= before.push(ev));
                assert(sources_of(ts.take(i + 1)) =~= sources_of(ts.take(i as int)).push(ev));
            },
            Err(_) => {
                assert(false);
                return Err(CommandError::InvalidArg(String::new()));
            },
        }
        i += 1;
    }
    assert(ts.take(texts.len() as int) =~= ts);
    let receipt = match require_arg(last_text_of(&a, 0), "--receipt", usage()) {
        Ok(v) => v,
        Err(m) => {
            return Err(CommandError::InvalidArg(m));
        },
    };
    let artifact_version = match require_non_empty(last_text_of(&a, 1), "--artifact-version", usage()) {
        Ok(v) => v,
        Err(m) => {
            return Err(CommandError::InvalidArg(m));
        },
    };
    let profile_name = match require_non_empty(last_text_of(&a, 2), "--profile-name", usage()) {
        Ok(v) => v,
        Err(m) => {
            return Err(CommandError::InvalidArg(m));
        },
    };
    let verification_status = match require_non_empty(last_text_of(&a, 3), "--verification-status", usage()) {
        Ok(v) => v,
        Err(m) => {
            return Err(CommandError::InvalidArg(m));
        },
    };
    let verified_at_unix_ms = match last_number_of(&a, 4) {
        Some(n) => n,
        None => {
            return Err(CommandError::InvalidArg(missing_arg("--verified-at-unix-ms", usage())));
        },
    };
    let evidence = match require_non_empty(last_text_of(&a, 5), "--evidence", usage()) {
        Ok(v) => v,
        Err(m) => {
            return Err(CommandError::InvalidArg(m));
        },
    };
    let out_path = match last_text_of(&a, 7) {
        Some(s) => s,
        None => owned("artifacts/deploy/deployment_verification_receipt_reconciliation.json"),
    };
    Ok(ReceiptReconcileArgs { receipt, artifact_version, profile_name, verification_status, verified_at_unix_ms, evidence, evidence_sources, out_path })
}

pub open spec fn source_json(e: (Seq<char>, Seq<char>, u64)) -> Json {
    object_of(
        seq![
            ("artifact_path"@, Json::Str(e.0)),
            ("event_name"@, Json::Str(e.1)),
            ("observed_at_unix_ms"@, Json::UInt(e.2)),
        ],
    )
}

/// The receipt that the arguments ask for.
pub open spec fn desired_spec(args: ReceiptReconcileArgsView) -> Json {
    object_of(
        seq![
            ("artifact_version"@, Json::Str(args.artifact_version)),
            ("profile_name"@, Json::Str(args.profile_name)),
            ("verification_status"@, Json::Str(args.verification_status)),
            ("verified_at_unix_ms"@, Json::UInt(args.verified_at_unix_ms)),
            ("evidence"@, Json::Str(args.evidence)),
            (
                "evidence_sources"@,
                Json::Array(Seq::new(args.evidence_sources.len(), |i: int| source_json(args.evidence_sources[i]))),
            ),
        ],
    )
}

pub open spec fn receipt_reads() -> Seq<(Seq<char>, ReadKind)> {
    seq![
        ("artifact_version"@, ReadKind::Str),
        ("profile_name"@, ReadKind::Str),
        ("verification_status"@, ReadKind::Str),
        ("verified_at_unix_ms"@, ReadKind::U64),
        ("evidence"@, ReadKind::Str),
        ("evidence_sources"@, ReadKind::ArrayStrict),
    ]
}

/// What the receipt on disk says, or why it cannot be read.
pub open spec fn current_spec(receipt: Seq<(Seq<char>, Json)>, path: Seq<char>) -> Result<Json, Failure> {
    match first_read_failure(receipt, receipt_reads(), path, "deployment verification receipt"@) {
        Some(m) => Err(Failure::Parse(m)),
        None => Ok(
            object_of(
                seq![
                    ("artifact_version"@, Json::Str(str_of(receipt, "artifact_version"@))),
                    ("profile_name"@, Json::Str(str_of(receipt, "profile_name"@))),
                    ("verification_status"@, Json::Str(str_of(receipt, "verification_status"@))),
                    ("verified_at_unix_ms"@, Json::UInt(u64_of(receipt, "verified_at_unix_ms"@))),
                    ("evidence"@, Json::Str(str_of(receipt, "evidence"@))),
                    ("evidence_sources"@, value_of(receipt, "evidence_sources"@)),
                ],
            ),
        ),
    }
}

/// The reconciliation of the receipt that the arguments ask for with the
/// one on disk.
pub open spec fn reconcile_spec(args: ReceiptReconcileArgsView, receipt: Seq<(Seq<char>, Json)>) -> Result<
    Json,
    Failure,
> {
    match current_spec(receipt, args.receipt) {
        Err(f) => Err(f),
        Ok(c) => Ok(
            object_of(
                seq![
                    ("schema_version"@, Json::Str("1"@)),
                    ("receipt_path"@, Json::Str(args.receipt)),
                    ("desired"@, desired_spec(args)),
                    ("current"@, c),
                    ("reconciliation_status"@, Json::Str(status_text(desired_spec(args), c))),
                ],
            ),
        ),
    }
}

fn desired_receipt(args: &ReceiptReconcileArgs) -> (r: JsonValue)
    ensures
        r@ == desired_spec(args@),
{
    let ghost av = args@;
    let mut items: Vec<JsonValue> = Vec::new();
    let mut i: usize = 0;
    while i < args.evidence_sources.len()
        invariant
            av == args@,
            i <= args.evidence_sources.len(),
            items_view(items@) == Seq::new(i as nat, |k: int| source_json(av.evidence_sources[k])),
        decreases args.evidence_sources.len() - i,
    {
        let e = &args.evidence_sources[i];
        let mut pairs: Vec<(String, JsonValue)> = Vec::new();
        pairs.push((owned("artifact_path"), JsonValue::Str(e.artifact_path.clone())));
        pairs.push((owned("event_name"), JsonValue::Str(e.event_name.clone())));
        pairs.push((owned("observed_at_unix_ms"), JsonValue::UInt(e.observed_at_unix_ms)));
        assert(av.evidence_sources[i as int] == e@);
        assert(entries_view(pairs@) =~= seq![
            ("artifact_path"@, Json::Str(e@.0)),
            ("event_name"@, Json::Str(e@.1)),
            ("observed_at_unix_ms"@, Json::UInt(e@.2)),
        ]);
        let item = object_from_pairs(pairs);
        let ghost before = items_view(items@);
        let ghost iv = item@;
        items.push(item);
        assert(items_view(items@) =~= before.push(iv));
        assert(items_view(items@) =~= Seq::new((i + 1) as nat, |k: int| source_json(av.evidence_sources[k])));
        i += 1;
    }
    proof {
        lemma_array_view(items);
    }
    let ghost iv = items_view(items@);
    let mut pairs: Vec<(String, JsonValue)> = Vec::new();
    pairs.push((owned("artifact_version"), JsonValue::Str(args.artifact_version.clone())));
    pairs.push((owned("profile_name"), JsonValue::Str(args.profile_name.clone())));
    pairs.push((owned("verification_status"), JsonValue::Str(args.verification_status.clone())));
    pairs.push((owned("verified_at_unix_ms"), JsonValue::UInt(args.verified_at_unix_ms)));
    pairs.push((owned("evidence"), JsonValue::Str(args.evidence.clone())));
    pairs.push((owned("evidence_sources"), JsonValue::Array(items)));
    assert(iv =~= Seq::new(av.evidence_sources.len(), |k: int| source_json(av.evidence_sources[k])));
    assert(entries_view(pairs@) =~= seq![
        ("artifact_version"@, Json::Str(av.artifact_version)),
        ("profile_name"@, Json::Str(av.profile_name)),
        ("verification_status"@, Json::Str(av.verification_status)),
        ("verified_at_unix_ms"@, Json::UInt(av.verified_at_unix_ms)),
        ("evidence"@, Json::Str(av.evidence)),
        ("evidence_sources"@, Json::Array(iv)),
    ]);
    object_from_pairs(pairs)
}

/// Reconciles the receipt that the arguments ask for with the one on disk,
/// given by its entries.
pub fn reconcile(args: &ReceiptReconcileArgs, receipt: &Vec<(String, JsonValue)>) -> (r: Result<
    JsonValue,
    CommandError,
>)
    ensures
        json_outcome(r) == reconcile_spec(args@, entries_view(receipt@)),
{
    let mut reads = Vec::new();
    reads.push(read("artifact_version", ReadKind::Str));
    reads.push(read("profile_name", ReadKind::Str));
    reads.push(read("verification_status", ReadKind::Str));
    reads.push(read("verified_at_unix_ms", ReadKind::U64));
    reads.push(read("evidence", ReadKind::Str));
    reads.push(read("evidence_sources", ReadKind::ArrayStrict));
    assert(reads_view(reads@) =~= receipt_reads());
    match check_reads(receipt, &reads, args.receipt.as_str(), "deployment verification receipt") {
        Err(m) => {
            return Err(CommandError::Parse(m));
        },
        Ok(_) => {},
    }
    assert(reads_view(reads@)[0].0 == "artifact_version"@);
    assert(reads_view(reads@)[1].0 == "profile_name"@);
    assert(reads_view(reads@)[2].0 == "verification_status"@);
    assert(reads_view(reads@)[3].0 == "verified_at_unix_ms"@);
    assert(reads_view(reads@)[4].0 == "evidence"@);
    assert(reads_view(reads@)[5].0 == "evidence_sources"@);
    let mut pairs: Vec<(String, JsonValue)> = Vec::new();
    pairs.push((owned("artifact_version"), JsonValue::Str(str_field(receipt, "artifact_version"))));
    pairs.push((owned("profile_name"), JsonValue::Str(str_field(receipt, "profile_name"))));
    pairs.push((owned("verification_status"), JsonValue::Str(str_field(receipt, "verification_status"))));
    pairs.push((owned("verified_at_unix_ms"), JsonValue::UInt(u64_field(receipt, "verified_at_unix_ms"))));
    pairs.push((owned("evidence"), JsonValue::Str(str_field(receipt, "evidence"))));
    pairs.push((owned("evidence_sources"), value_field(receipt, "evidence_sources")));
    proof {
        let receipt = entries_view(receipt@);
        assert(entries_view(pairs@) =~= seq![
            ("artifact_version"@, Json::Str(str_of(receipt, "artifact_version"@))),
            ("profile_name"@, Json::Str(str_of(receipt, "profile_name"@))),
            ("verification_status"@, Json::Str(str_of(receipt, "verification_status"@))),
            ("verified_at_unix_ms"@, Json::UInt(u64_of(receipt, "verified_at_unix_ms"@))),
            ("evidence"@, Json::Str(str_of(receipt, "evidence"@))),
            ("evidence_sources"@, value_of(receipt, "evidence_sources"@)),
        ]);
    }
    let current = object_from_pairs(pairs);
    let desired = desired_receipt(args);
    let status = reconciliation_status(&desired, &current);
    let ghost dv = desired@;
    let ghost cv = current@;
    let mut out: Vec<(String, JsonValue)> = Vec::new();
    out.push((owned("schema_version"), JsonValue::Str(owned("1"))));
    out.push((owned("receipt_path"), JsonValue::Str(args.receipt.clone())));
    out.push((owned("desired"), desired));
    out.push((owned("current"), current));
    out.push((owned("reconciliation_status"), JsonValue::Str(owned(status))));
    assert(entries_view(out@) =~= seq![
        ("schema_version"@, Json::Str("1"@)),
        ("receipt_path"@, Json::Str(args@.receipt)),
        ("desired"@, dv),
        ("current"@, cv),
        ("reconciliation_status"@, Json::Str(status_text(dv, cv))),
    ]);
    Ok(object_from_pairs(out))
}

} // verus!
