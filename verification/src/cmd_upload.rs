use vstd::prelude::*;
use crate::cli::{
    empty_message, last_number, last_number_of, last_text, last_text_of, missing_arg,
    missing_message, opt_view, require_arg, require_filled, require_non_empty, rule, rules_view,
    scan, scan_args, texts_view, FlagRule, InlineForm, RuleSpec, ValueKind,
};
use crate::fields::{
    check_reads, first_read_failure, json_outcome, outcome, read, reads_view, str_field, str_of,
    u64_field, u64_of, value_field, value_of, CommandError, Failure, ReadKind,
};
use crate::fields::{or_else, push_opt_str, push_opt_text, with_opt_str, with_opt_text};
use crate::json::{entries_get, entries_view, object_from_pairs, object_of, Json, JsonValue};
use crate::text::{is_blank, owned, trimmed};
use crate::json::{items_view, lemma_array_view, lemma_object_view, map_get, text_eq};
use crate::text::{cat, cat3, cat5};
use vstd::string::{StrSliceExecFns, StringExecFns};
use crate::paths::{paths_equal, same_path};

verus! {

/// The arguments of `upload`.
#[derive(Debug, PartialEq, Eq)]
pub struct UploadArgs {
    pub manifest_path: String,
    pub ownership_path: String,
    pub package_contract_path: Option<String>,
    pub provider: String,
    pub destination: String,
    pub out_path: Option<String>,
}

pub struct UploadArgsView {
    pub manifest_path: Seq<char>,
    pub ownership_path: Seq<char>,
    pub package_contract_path: Option<Seq<char>>,
    pub provider: Seq<char>,
    pub destination: Seq<char>,
    pub out_path: Option<Seq<char>>,
}

impl View for UploadArgs {
    type V = UploadArgsView;

    open spec fn view(&self) -> UploadArgsView {
        UploadArgsView {
            manifest_path: self.manifest_path@,
            ownership_path: self.ownership_path@,
            package_contract_path: opt_view(self.package_contract_path),
            provider: self.provider@,
            destination: self.destination@,
            out_path: opt_view(self.out_path),
        }
    }
}

pub open spec fn usage_text() -> Seq<char> {
    "usage: afterburner deploy upload --manifest PATH --ownership PATH [--package-contract PATH] --provider NAME --destination REF [--out PATH]"@
}

pub fn usage() -> (r: &'static str)
    ensures
        r@ == usage_text(),
{
    "usage: afterburner deploy upload --manifest PATH --ownership PATH [--package-contract PATH] --provider NAME --destination REF [--out PATH]"
}

pub open spec fn rules_spec() -> Seq<RuleSpec> {
    seq![
        RuleSpec { name: "--manifest"@, kind: ValueKind::FilledOrEmpty, inline: InlineForm::StripAll },
        RuleSpec { name: "--ownership"@, kind: ValueKind::FilledOrEmpty, inline: InlineForm::StripAll },
        RuleSpec { name: "--package-contract"@, kind: ValueKind::FilledOrEmpty, inline: InlineForm::StripAll },
        RuleSpec { name: "--provider"@, kind: ValueKind::FilledOrEmpty, inline: InlineForm::StripAll },
        RuleSpec { name: "--destination"@, kind: ValueKind::FilledOrEmpty, inline: InlineForm::StripAll },
        RuleSpec { name: "--out"@, kind: ValueKind::FilledOrEmpty, inline: InlineForm::StripAll },
    ]
}

fn rules() -> (r: Vec<FlagRule>)
    ensures
        rules_view(r@) == rules_spec(),
{
    let mut r = Vec::new();
    r.push(rule("--manifest", ValueKind::FilledOrEmpty, InlineForm::StripAll));
    r.push(rule("--ownership", ValueKind::FilledOrEmpty, InlineForm::StripAll));
    r.push(rule("--package-contract", ValueKind::FilledOrEmpty, InlineForm::StripAll));
    r.push(rule("--provider", ValueKind::FilledOrEmpty, InlineForm::StripAll));
    r.push(rule("--destination", ValueKind::FilledOrEmpty, InlineForm::StripAll));
    r.push(rule("--out", ValueKind::FilledOrEmpty, InlineForm::StripAll));
    assert(rules_view(r@) =~= rules_spec());
    r
}

/// The arguments that the command line gives, or why it is refused.
pub open spec fn parse_args_spec(args: Seq<Seq<char>>) -> Result<UploadArgsView, Failure> {
    match scan(rules_spec(), args, "upload"@, usage_text()) {
        Err(m) => Err(Failure::InvalidArg(m)),
        Ok(a) => {
            match last_text(a, 0) {
                None => Err(Failure::InvalidArg(missing_message("--manifest"@, usage_text()))),
                Some(v_manifest_path) => {
                    match last_text(a, 1) {
                        None => Err(Failure::InvalidArg(missing_message("--ownership"@, usage_text()))),
                        Some(v_ownership_path) => {
                            match last_text(a, 3) {
                                None => Err(Failure::InvalidArg(missing_message("--provider"@, usage_text()))),
                                Some(v_provider) => {
                                    match last_text(a, 4) {
                                        None => Err(Failure::InvalidArg(missing_message("--destination"@, usage_text()))),
                                        Some(v_destination) => {
                                            Ok(UploadArgsView {
                                                manifest_path: v_manifest_path,
                                                ownership_path: v_ownership_path,
                                                package_contract_path: last_text(a, 2),
                                                provider: v_provider,
                                                destination: v_destination,
                                                out_path: last_text(a, 5),
                                            })
                                        }
                                    }
                                }
                            }
                        }
                    }
                }
            }
        },
    }
}

pub fn parse_args(args: &Vec<String>) -> (r: Result<UploadArgs, CommandError>)
    ensures
        outcome(r) == parse_args_spec(texts_view(args@)),
{
    let rules = rules();
    let a = match scan_args(&rules, args, "upload", usage()) {
        Ok(a) => a,
        Err(m) => {
            return Err(CommandError::InvalidArg(m));
        },
    };
    let manifest_path = match require_arg(last_text_of(&a, 0), "--manifest", usage()) {
        Ok(v) => v,
        Err(m) => {
            return Err(CommandError::InvalidArg(m));
        },
    };
    let ownership_path = match require_arg(last_text_of(&a, 1), "--ownership", usage()) {
        Ok(v) => v,
        Err(m) => {
            return Err(CommandError::InvalidArg(m));
        },
    };
    let provider = match require_arg(last_text_of(&a, 3), "--provider", usage()) {
        Ok(v) => v,
        Err(m) => {
            return Err(CommandError::InvalidArg(m));
        },
    };
    let destination = match require_arg(last_text_of(&a, 4), "--destination", usage()) {
        Ok(v) => v,
        Err(m) => {
            return Err(CommandError::InvalidArg(m));
        },
    };
    let package_contract_path = last_text_of(&a, 2);
    let out_path = last_text_of(&a, 5);
    Ok(UploadArgs { manifest_path, ownership_path, package_contract_path, provider, destination, out_path })
}

/// Who owns the rollout of an upload and who approved it.
#[derive(Debug, PartialEq, Eq)]
pub struct OwnershipRecord {
    pub provenance_source: String,
    pub rollout_owner: String,
    pub approved_by: String,
    pub approval_ticket: String,
    pub approved_at_unix_ms: u64,
}

pub struct OwnershipView {
    pub provenance_source: Seq<char>,
    pub rollout_owner: Seq<char>,
    pub approved_by: Seq<char>,
    pub approval_ticket: Seq<char>,
    pub approved_at_unix_ms: u64,
}

impl View for OwnershipRecord {
    type V = OwnershipView;

    open spec fn view(&self) -> OwnershipView {
        OwnershipView {
            provenance_source: self.provenance_source@,
            rollout_owner: self.rollout_owner@,
            approved_by: self.approved_by@,
            approval_ticket: self.approval_ticket@,
            approved_at_unix_ms: self.approved_at_unix_ms,
        }
    }
}

/// A file that travels with the artifact.
#[derive(Debug, PartialEq, Eq)]
pub struct SupportFile {
    pub role: String,
    pub local_path: String,
    pub path_in_artifact_directory: String,
}

pub struct SupportFileView {
    pub role: Seq<char>,
    pub local_path: Seq<char>,
    pub path_in_artifact_directory: Seq<char>,
}

impl View for SupportFile {
    type V = SupportFileView;

    open spec fn view(&self) -> SupportFileView {
        SupportFileView {
            role: self.role@,
            local_path: self.local_path@,
            path_in_artifact_directory: self.path_in_artifact_directory@,
        }
    }
}

/// The non-empty string under `key`, or the message that it is not one.
pub open spec fn text_read(o: Seq<(Seq<char>, Json)>, key: Seq<char>) -> Result<Seq<char>, Seq<char>> {
    match entries_get(o, key) {
        Some(Json::Str(s)) => if s.len() == 0 {
            Err(key + " must be non-empty"@)
        } else {
            Ok(s)
        },
        _ => Err(key + " must be a string"@),
    }
}

/// Reads the non-empty string under `key`.
pub fn read_text(o: &Vec<(String, JsonValue)>, key: &str) -> (r: Result<String, String>)
    ensures
        match text_read(entries_view(o@), key@) {
            Ok(s) => r matches Ok(x) && x@ == s,
            Err(m) => r matches Err(x) && x@ == m,
        },
{
    match map_get(o, key) {
        Some(JsonValue::Str(s)) => if s.as_str().unicode_len() == 0 {
            Err(cat(key, " must be non-empty"))
        } else {
            Ok(s.clone())
        },
        _ => Err(cat(key, " must be a string")),
    }
}

/// Whether some approved operation is the string `upload`.
pub open spec fn upload_approved(items: Seq<Json>) -> bool {
    exists|i: int| 0 <= i < items.len() && items[i] == Json::Str("upload"@)
}

/// The ownership record that a parsed document holds, or why it is
/// refused: it must be an object with schema `1`, approve the `upload`
/// operation and name its owners.
pub open spec fn ownership_spec(doc: Json) -> Result<OwnershipView, Seq<char>> {
    match doc {
        Json::Object(o) => match text_read(o, "schema_version"@) {
            Err(m) => Err(m),
            Ok(sv) => if sv != "1"@ {
                Err("schema_version must be `1`, found `"@ + sv + "`"@)
            } else {
                match entries_get(o, "approved_operations"@) {
                    Some(Json::Array(items)) => if !upload_approved(items) {
                        Err("approved_operations must include `upload`"@)
                    } else {
                        match (
                            text_read(o, "provenance_source"@),
                            text_read(o, "rollout_owner"@),
                            text_read(o, "approved_by"@),
                            text_read(o, "approval_ticket"@),
                        ) {
                            (Err(m), _, _, _) => Err(m),
                            (Ok(_), Err(m), _, _) => Err(m),
                            (Ok(_), Ok(_), Err(m), _) => Err(m),
                            (Ok(_), Ok(_), Ok(_), Err(m)) => Err(m),
                            (Ok(ps), Ok(ro), Ok(ab), Ok(at)) => match entries_get(
                                o,
                                "approved_at_unix_ms"@,
                            ) {
                                Some(Json::UInt(ms)) => Ok(
                                    OwnershipView {
                                        provenance_source: ps,
                                        rollout_owner: ro,
                                        approved_by: ab,
                                        approval_ticket: at,
                                        approved_at_unix_ms: ms,
                                    },
                                ),
                                _ => Err("approved_at_unix_ms must be a non-negative integer"@),
                            },
                        }
                    },
                    _ => Err("approved_operations must be an array"@),
                }
            },
        },
        _ => Err("ownership file must contain a json object"@),
    }
}

fn approves_upload(items: &Vec<JsonValue>) -> (r: bool)
    ensures
        r == upload_approved(items_view(items@)),
{
    let ghost iv = items_view(items@);
    let mut i: usize = 0;
    while i < items.len()
        invariant
            iv == items_view(items@),
            i <= items.len(),
            forall|j: int| 0 <= j < i ==> iv[j] != Json::Str("upload"@),
        decreases items.len() - i,
    {
        match &items[i] {
            JsonValue::Str(s) => {
                if text_eq(s.as_str(), "upload") {
                    assert(iv[i as int] == Json::Str("upload"@));
                    return true;
                }
            },
            _ => {},
        }
        i += 1;
    }
    false
}

/// Reads the ownership record from a parsed document. (Reading and
/// parsing the file happen before.)
pub fn load_ownership_record(document: &JsonValue) -> (r: Result<OwnershipRecord, String>)
    ensures
        match ownership_spec(document@) {
            Ok(v) => r matches Ok(x) && x@ == v,
            Err(m) => r matches Err(x) && x@ == m,
        },
{
    let o = match document {
        JsonValue::Object(o) => o,
        _ => {
            return Err(owned("ownership file must contain a json object"));
        },
    };
    proof {
        lemma_object_view(*o);
    }
    let schema_version = read_text(o, "schema_version")?;
    if !text_eq(schema_version.as_str(), "1") {
        return Err(cat3("schema_version must be `1`, found `", schema_version.as_str(), "`"));
    }
    match map_get(o, "approved_operations") {
        Some(JsonValue::Array(items)) => {
            proof {
                lemma_array_view(*items);
            }
            if !approves_upload(items) {
                return Err(owned("approved_operations must include `upload`"));
            }
        },
        _ => {
            return Err(owned("approved_operations must be an array"));
        },
    }
    let provenance_source = read_text(o, "provenance_source")?;
    let rollout_owner = read_text(o, "rollout_owner")?;
    let approved_by = read_text(o, "approved_by")?;
    let approval_ticket = read_text(o, "approval_ticket")?;
    let approved_at_unix_ms = match map_get(o, "approved_at_unix_ms") {
        Some(JsonValue::UInt(ms)) => *ms,
        _ => {
            return Err(owned("approved_at_unix_ms must be a non-negative integer"));
        },
    };
    Ok(
        OwnershipRecord {
            provenance_source,
            rollout_owner,
            approved_by,
            approval_ticket,
            approved_at_unix_ms,
        },
    )
}

pub open spec fn support_file(role: Seq<char>, local: Seq<char>, inside: Seq<char>) -> SupportFileView {
    SupportFileView { role, local_path: local, path_in_artifact_directory: inside }
}

/// The support files that the package layout lists, in order: entries of
/// role `optimization_profile` and `package_contract`; entries of other
/// roles are skipped.
pub open spec fn layout_files(items: Seq<Json>, profile: Seq<char>, contract: Seq<char>) -> Result<
    Seq<SupportFileView>,
    Seq<char>,
>
    decreases items.len(),
{
    if items.len() == 0 {
        Ok(Seq::empty())
    } else {
        match items[0] {
            Json::Object(e) => match (text_read(e, "role"@), text_read(e, "path"@)) {
                (Err(m), _) => Err(m),
                (Ok(_), Err(m)) => Err(m),
                (Ok(role), Ok(p)) => {
                    let here: Seq<SupportFileView> = if role == "optimization_profile"@ {
                        seq![support_file(role, profile, p)]
                    } else if role == "package_contract"@ {
                        seq![support_file(role, contract, p)]
                    } else {
                        Seq::empty()
                    };
                    match layout_files(items.drop_first(), profile, contract) {
                        Err(m) => Err(m),
                        Ok(rest) => Ok(here + rest),
                    }
                },
            },
            _ => Err("package_layout entries must be objects"@),
        }
    }
}

/// The support files that a package contract lists, or why the contract
/// is refused: it must be for the manifest's artifact version and for the
/// artifact being uploaded.
pub open spec fn support_files_spec(
    doc: Json,
    contract_path: Seq<char>,
    artifact_version: Seq<char>,
    artifact_path: Seq<char>,
) -> Result<Seq<SupportFileView>, Seq<char>> {
    match doc {
        Json::Object(o) => match text_read(o, "input_artifact_version"@) {
            Err(m) => Err(m),
            Ok(pv) => if pv != artifact_version {
                Err(
                    "package contract input_artifact_version `"@ + pv
                        + "` must match manifest artifact_version `"@ + artifact_version + "`"@,
                )
            } else {
                match text_read(o, "optimized_artifact_path"@) {
                    Err(m) => Err(m),
                    Ok(oap) => if !same_path(oap, artifact_path) {
                        Err(
                            "package contract optimized_artifact_path `"@ + oap
                                + "` must match upload artifact `"@ + artifact_path + "`"@,
                        )
                    } else {
                        match entries_get(o, "packaging_inputs"@) {
                            Some(Json::Object(pi)) => match text_read(
                                pi,
                                "optimization_profile_path"@,
                            ) {
                                Err(m) => Err(m),
                                Ok(profile) => match entries_get(o, "package_layout"@) {
                                    Some(Json::Array(items)) => layout_files(
                                        items,
                                        profile,
                                        contract_path,
                                    ),
                                    _ => Err("package_layout must be an array"@),
                                },
                            },
                            _ => Err("packaging_inputs must be an object"@),
                        }
                    },
                }
            },
        },
        _ => Err("package contract must contain a json object"@),
    }
}

pub open spec fn files_view(v: Seq<SupportFile>) -> Seq<SupportFileView> {
    Seq::new(v.len(), |i: int| v[i]@)
}

pub open spec fn prepend_files(acc: Seq<SupportFileView>, r: Result<Seq<SupportFileView>, Seq<char>>) -> Result<
    Seq<SupportFileView>,
    Seq<char>,
> {
    match r {
        Ok(rest) => Ok(acc + rest),
        Err(m) => Err(m),
    }
}

/// Reads the support files that a parsed package contract lists.
/// (Reading and parsing the file happen before.)
pub fn load_support_files(
    document: &JsonValue,
    package_contract_path: &str,
    artifact_version: &str,
    artifact_path: &str,
) -> (r: Result<Vec<SupportFile>, String>)
    ensures
        match support_files_spec(document@, package_contract_path@, artifact_version@, artifact_path@) {
            Ok(v) => r matches Ok(x) && files_view(x@) == v,
            Err(m) => r matches Err(x) && x@ == m,
        },
{
    let o = match document {
        JsonValue::Object(o) => o,
        _ => {
            return Err(owned("package contract must contain a json object"));
        },
    };
    proof {
        lemma_object_view(*o);
    }
    let package_version = read_text(o, "input_artifact_version")?;
    if !text_eq(package_version.as_str(), artifact_version) {
        return Err(
            cat5(
                "package contract input_artifact_version `",
                package_version.as_str(),
                "` must match manifest artifact_version `",
                artifact_version,
                "`",
            ),
        );
    }
    let optimized = read_text(o, "optimized_artifact_path")?;
    if !paths_equal(optimized.as_str(), artifact_path) {
        return Err(
            cat5(
                "package contract optimized_artifact_path `",
                optimized.as_str(),
                "` must match upload artifact `",
                artifact_path,
                "`",
            ),
        );
    }
    let profile = match map_get(o, "packaging_inputs") {
        Some(JsonValue::Object(pi)) => {
            proof {
                lemma_object_view(*pi);
            }
            read_text(pi, "optimization_profile_path")?
        },
        _ => {
            return Err(owned("packaging_inputs must be an object"));
        },
    };
    let items = match map_get(o, "package_layout") {
        Some(JsonValue::Array(items)) => items,
        _ => {
            return Err(owned("package_layout must be an array"));
        },
    };
    proof {
        lemma_array_view(*items);
    }
    let ghost iv = items_view(items@);
    let ghost whole = layout_files(iv, profile@, package_contract_path@);
    let mut files: Vec<SupportFile> = Vec::new();
    let mut i: usize = 0;
    assert(iv.skip(0) =~= iv);
    assert(files_view(files@) =~= Seq::<SupportFileView>::empty());
    while i < items.len()
        invariant
            iv == items_view(items@),
            whole == layout_files(iv, profile@, package_contract_path@),
            whole == support_files_spec(
                document@,
                package_contract_path@,
                artifact_version@,
                artifact_path@,
            ),
            i <= items.len(),
            whole == prepend_files(
                files_view(files@),
                layout_files(iv.skip(i as int), profile@, package_contract_path@),
            ),
        decreases items.len() - i,
    {
        let ghost rest = iv.skip(i as int);
        assert(rest.drop_first() =~= iv.skip(i + 1));
        assert(rest[0] == items[i as int]@);
        let e = match &items[i] {
            JsonValue::Object(e) => e,
            _ => {
                return Err(owned("package_layout entries must be objects"));
            },
        };
        proof {
            lemma_object_view(*e);
        }
        let role = read_text(e, "role")?;
        let relative = read_text(e, "path")?;
        let ghost before = files_view(files@);
        let ghost role_v = role@;
        let ghost rel_v = relative@;
        let ghost here: Seq<SupportFileView> = if role_v == "optimization_profile"@ {
            seq![support_file(role_v, profile@, rel_v)]
        } else if role_v == "package_contract"@ {
            seq![support_file(role_v, package_contract_path@, rel_v)]
        } else {
            Seq::empty()
        };
        if text_eq(role.as_str(), "optimization_profile") {
            files.push(
                SupportFile {
                    role,
                    local_path: profile.clone(),
                    path_in_artifact_directory: relative,
                },
            );
        } else if text_eq(role.as_str(), "package_contract") {
            files.push(
                SupportFile {
                    role,
                    local_path: owned(package_contract_path),
                    path_in_artifact_directory: relative,
                },
            );
        }
        proof {
            assert(files_view(files@) =~= before + here);
            assert(rest[0] == Json::Object(entries_view(e@)));
            match layout_files(iv.skip(i + 1), profile@, package_contract_path@) {
                Ok(tail) => {
                    assert(layout_files(rest, profile@, package_contract_path@) == Ok::<
                        Seq<SupportFileView>,
                        Seq<char>,
                    >(here + tail));
                    assert(before + (here + tail) =~= (before + here) + tail);
                },
                Err(m) => {
                    assert(layout_files(rest, profile@, package_contract_path@) == Err::<
                        Seq<SupportFileView>,
                        Seq<char>,
                    >(m));
                },
            }
        }
        i += 1;
    }
    assert(iv.skip(i as int) =~= Seq::<Json>::empty());
    assert(files_view(files@) + Seq::<SupportFileView>::empty() =~= files_view(files@));
    Ok(files)
}

pub open spec fn support_file_json(f: SupportFileView) -> Json {
    object_of(
        seq![
            ("role"@, Json::Str(f.role)),
            ("local_path"@, Json::Str(f.local_path)),
            ("path_in_artifact_directory"@, Json::Str(f.path_in_artifact_directory)),
        ],
    )
}

/// The artifact that an upload request is for, as its manifest and its
/// place on disk describe it.
pub struct UploadArtifact {
    pub version: String,
    pub sha256: String,
    pub file: String,
    pub directory: String,
}

pub struct UploadArtifactView {
    pub version: Seq<char>,
    pub sha256: Seq<char>,
    pub file: Seq<char>,
    pub directory: Seq<char>,
}

impl View for UploadArtifact {
    type V = UploadArtifactView;

    open spec fn view(&self) -> UploadArtifactView {
        UploadArtifactView {
            version: self.version@,
            sha256: self.sha256@,
            file: self.file@,
            directory: self.directory@,
        }
    }
}

/// The upload request: what is uploaded, where to, and who approved it;
/// the support files are listed when there are any.
pub open spec fn request_spec(
    args: UploadArgsView,
    artifact: UploadArtifactView,
    owner: OwnershipView,
    files: Seq<SupportFileView>,
) -> Json {
    let base = seq![
        ("schema_version"@, Json::Str("1"@)),
        ("operation"@, Json::Str("upload"@)),
        ("provider"@, Json::Str(args.provider)),
        ("destination"@, Json::Str(args.destination)),
        ("artifact_version"@, Json::Str(artifact.version)),
        ("artifact_manifest"@, Json::Str(args.manifest_path)),
        ("artifact_file"@, Json::Str(artifact.file)),
        ("artifact_directory"@, Json::Str(artifact.directory)),
        ("artifact_sha256"@, Json::Str(artifact.sha256)),
        ("provenance_source"@, Json::Str(owner.provenance_source)),
        ("rollout_owner"@, Json::Str(owner.rollout_owner)),
        ("approved_by"@, Json::Str(owner.approved_by)),
        ("approval_ticket"@, Json::Str(owner.approval_ticket)),
        ("approved_at_unix_ms"@, Json::UInt(owner.approved_at_unix_ms)),
    ];
    if files.len() == 0 {
        object_of(base)
    } else {
        object_of(
            base.push(
                (
                    "artifact_support_files"@,
                    Json::Array(Seq::new(files.len(), |i: int| support_file_json(files[i]))),
                ),
            ),
        )
    }
}

/// Builds the upload request.
pub fn upload_request(
    args: &UploadArgs,
    artifact: &UploadArtifact,
    owner: &OwnershipRecord,
    files: &Vec<SupportFile>,
) -> (r: JsonValue)
    ensures
        r@ == request_spec(args@, artifact@, owner@, files_view(files@)),
{
    let mut pairs: Vec<(String, JsonValue)> = Vec::new();
    pairs.push((owned("schema_version"), JsonValue::Str(owned("1"))));
    pairs.push((owned("operation"), JsonValue::Str(owned("upload"))));
    pairs.push((owned("provider"), JsonValue::Str(args.provider.clone())));
    pairs.push((owned("destination"), JsonValue::Str(args.destination.clone())));
    pairs.push((owned("artifact_version"), JsonValue::Str(artifact.version.clone())));
    pairs.push((owned("artifact_manifest"), JsonValue::Str(args.manifest_path.clone())));
    pairs.push((owned("artifact_file"), JsonValue::Str(artifact.file.clone())));
    pairs.push((owned("artifact_directory"), JsonValue::Str(artifact.directory.clone())));
    pairs.push((owned("artifact_sha256"), JsonValue::Str(artifact.sha256.clone())));
    pairs.push((owned("provenance_source"), JsonValue::Str(owner.provenance_source.clone())));
    pairs.push((owned("rollout_owner"), JsonValue::Str(owner.rollout_owner.clone())));
    pairs.push((owned("approved_by"), JsonValue::Str(owner.approved_by.clone())));
    pairs.push((owned("approval_ticket"), JsonValue::Str(owner.approval_ticket.clone())));
    pairs.push((owned("approved_at_unix_ms"), JsonValue::UInt(owner.approved_at_unix_ms)));
    let ghost base = entries_view(pairs@);
    assert(base =~= seq![
        ("schema_version"@, Json::Str("1"@)),
        ("operation"@, Json::Str("upload"@)),
        ("provider"@, Json::Str(args@.provider)),
        ("destination"@, Json::Str(args@.destination)),
        ("artifact_version"@, Json::Str(artifact@.version)),
        ("artifact_manifest"@, Json::Str(args@.manifest_path)),
        ("artifact_file"@, Json::Str(artifact@.file)),
        ("artifact_directory"@, Json::Str(artifact@.directory)),
        ("artifact_sha256"@, Json::Str(artifact@.sha256)),
        ("provenance_source"@, Json::Str(owner@.provenance_source)),
        ("rollout_owner"@, Json::Str(owner@.rollout_owner)),
        ("approved_by"@, Json::Str(owner@.approved_by)),
        ("approval_ticket"@, Json::Str(owner@.approval_ticket)),
        ("approved_at_unix_ms"@, Json::UInt(owner@.approved_at_unix_ms)),
    ]);
    if files.len() > 0 {
        let ghost fv = files_view(files@);
        let mut entries: Vec<JsonValue> = Vec::new();
        let mut i: usize = 0;
        while i < files.len()
            invariant
                fv == files_view(files@),
                i <= files.len(),
                entries.len() == i,
                forall|j: int| 0 <= j < i ==> (#[trigger] entries[j])@ == support_file_json(fv[j]),
            decreases files.len() - i,
        {
            let f = &files[i];
            let mut fp: Vec<(String, JsonValue)> = Vec::new();
            fp.push((owned("role"), JsonValue::Str(f.role.clone())));
            fp.push((owned("local_path"), JsonValue::Str(f.local_path.clone())));
            fp.push(
                (
                    owned("path_in_artifact_directory"),
                    JsonValue::Str(f.path_in_artifact_directory.clone()),
                ),
            );
            assert(entries_view(fp@) =~= seq![
                ("role"@, Json::Str(fv[i as int].role)),
                ("local_path"@, Json::Str(fv[i as int].local_path)),
                ("path_in_artifact_directory"@, Json::Str(fv[i as int].path_in_artifact_directory)),
            ]);
            entries.push(object_from_pairs(fp));
            i += 1;
        }
        proof {
            lemma_array_view(entries);
            assert(items_view(entries@) =~= Seq::new(fv.len(), |i: int| support_file_json(fv[i])));
        }
        pairs.push((owned("artifact_support_files"), JsonValue::Array(entries)));
        assert(entries_view(pairs@) =~= base.push(
            (
                "artifact_support_files"@,
                Json::Array(Seq::new(fv.len(), |i: int| support_file_json(fv[i]))),
            ),
        ));
    }
    object_from_pairs(pairs)
}


/// What the package contract's text gives: "failed to parse package
/// contract json: DETAIL" where it holds no JSON, else what its document
/// gives.
pub open spec fn support_files_text_spec(
    text: Seq<char>,
    package_contract_path: Seq<char>,
    artifact_version: Seq<char>,
    artifact_path: Seq<char>,
) -> Result<Seq<SupportFileView>, Seq<char>> {
    match crate::json_text::json_parse_result(text) {
        Err(e) => Err("failed to parse package contract json: "@ + e),
        Ok(d) => support_files_spec(d, package_contract_path, artifact_version, artifact_path),
    }
}

/// Parses the package contract's text and reads the support files it lists.
pub fn load_support_files_text(
    text: &str,
    package_contract_path: &str,
    artifact_version: &str,
    artifact_path: &str,
) -> (r: Result<Vec<SupportFile>, String>)
    ensures
        match support_files_text_spec(text@, package_contract_path@, artifact_version@, artifact_path@) {
            Ok(v) => r matches Ok(x) && files_view(x@) == v,
            Err(m) => r matches Err(x) && x@ == m,
        },
{
    match crate::json_text::parse_json_text(text) {
        Err(e) => Err(crate::text::cat("failed to parse package contract json: ", e.as_str())),
        Ok(document) => load_support_files(&document, package_contract_path, artifact_version, artifact_path),
    }
}

} // verus!
