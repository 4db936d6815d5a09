use vstd::prelude::*;
use crate::cli::{
    empty_message, last_number, last_number_of, last_text, last_text_of, missing_arg,
    missing_message, opt_view, require_arg, require_filled, require_non_empty, rule, rules_view,
    scan, scan_args, texts_view, FlagRule, InlineForm, RuleSpec, ValueKind,
};
use crate::fields::{
    check_reads, first_read_failure, json_outcome, outcome, read, reads_view, str_field, str_of,
    u64_field, u64_of, value_field, value_of, CommandError, Failure, ReadKind,
};
use crate::fields::{or_else, push_opt_str, push_opt_text, with_opt_str, with_opt_text};
use crate::json::{entries_get, entries_view, object_from_pairs, object_of, Json, JsonValue};
use crate::text::{is_blank, owned, trimmed};
use crate::json::{items_view, lemma_array_view, lemma_object_view, map_get};
use crate::text::{cat3, cat4};
use crate::paths::{join_path, path_join};
use vstd::string::StrSliceExecFns;

verus! {

/// The arguments of `deploy hf-publish`.
#[derive(Debug, PartialEq, Eq)]
pub struct HfPublishArgs {
    pub request_path: String,
    pub hf_bin: String,
    pub revision: String,
    pub out_path: Option<String>,
}

pub struct HfPublishArgsView {
    pub request_path: Seq<char>,
    pub hf_bin: Seq<char>,
    pub revision: Seq<char>,
    pub out_path: Option<Seq<char>>,
}

impl View for HfPublishArgs {
    type V = HfPublishArgsView;

    open spec fn view(&self) -> HfPublishArgsView {
        HfPublishArgsView {
            request_path: self.request_path@,
            hf_bin: self.hf_bin@,
            revision: self.revision@,
            out_path: opt_view(self.out_path),
        }
    }
}

pub open spec fn usage_text() -> Seq<char> {
    "usage: afterburner deploy hf-publish --request PATH [--hf-bin PATH] [--revision NAME] [--out PATH]"@
}

pub fn usage() -> (r: &'static str)
    ensures
        r@ == usage_text(),
{
    "usage: afterburner deploy hf-publish --request PATH [--hf-bin PATH] [--revision NAME] [--out PATH]"
}

pub open spec fn rules_spec() -> Seq<RuleSpec> {
    seq![
        RuleSpec { name: "--request"@, kind: ValueKind::FilledOrMissing, inline: InlineForm::StripAll },
        RuleSpec { name: "--hf-bin"@, kind: ValueKind::FilledOrMissing, inline: InlineForm::StripAll },
        RuleSpec { name: "--revision"@, kind: ValueKind::FilledOrMissing, inline: InlineForm::StripAll },
        RuleSpec { name: "--out"@, kind: ValueKind::FilledOrMissing, inline: InlineForm::StripAll },
    ]
}

fn rules() -> (r: Vec<FlagRule>)
    ensures
        rules_view(r@) == rules_spec(),
{
    let mut r = Vec::new();
    r.push(rule("--request", ValueKind::FilledOrMissing, InlineForm::StripAll));
    r.push(rule("--hf-bin", ValueKind::FilledOrMissing, InlineForm::StripAll));
    r.push(rule("--revision", ValueKind::FilledOrMissing, InlineForm::StripAll));
    r.push(rule("--out", ValueKind::FilledOrMissing, InlineForm::StripAll));
    assert(rules_view(r@) =~= rules_spec());
    r
}

/// The arguments that the command line gives, or why it is refused.
pub open spec fn parse_args_spec(args: Seq<Seq<char>>) -> Result<HfPublishArgsView, Failure> {
    match scan(rules_spec(), args, "deploy hf-publish"@, usage_text()) {
        Err(m) => Err(Failure::InvalidArg(m)),
        Ok(a) => {
            match last_text(a, 0) {
                None => Err(Failure::InvalidArg(missing_message("--request"@, usage_text()))),
                Some(v_request_path) => {
                    Ok(HfPublishArgsView {
                        request_path: v_request_path,
                        hf_bin: match last_text(a, 1) { Some(p) => p, None => "hf"@ },
                        revision: match last_text(a, 2) { Some(p) => p, None => "main"@ },
                        out_path: last_text(a, 3),
                    })
                }
            }
        },
    }
}

pub fn parse_args(args: &Vec<String>) -> (r: Result<HfPublishArgs, CommandError>)
    ensures
        outcome(r) == parse_args_spec(texts_view(args@)),
{
    let rules = rules();
    let a = match scan_args(&rules, args, "deploy hf-publish", usage()) {
        Ok(a) => a,
        Err(m) => {
            return Err(CommandError::InvalidArg(m));
        },
    };
    let request_path = match require_arg(last_text_of(&a, 0), "--request", usage()) {
        Ok(v) => v,
        Err(m) => {
            return Err(CommandError::InvalidArg(m));
        },
    };
    let hf_bin = match last_text_of(&a, 1) {
        Some(s) => s,
        None => owned("hf"),
    };
    let revision = match last_text_of(&a, 2) {
        Some(s) => s,
        None => owned("main"),
    };
    let out_path = last_text_of(&a, 3);
    Ok(HfPublishArgs { request_path, hf_bin, revision, out_path })
}

/// A file that is published beside the artifact: where it is, and where it
/// goes inside the artifact's directory.
#[derive(Debug, PartialEq, Eq)]
pub struct PublishSupportFile {
    pub local_path: String,
    pub path_in_artifact_directory: String,
}

impl View for PublishSupportFile {
    type V = (Seq<char>, Seq<char>);

    open spec fn view(&self) -> (Seq<char>, Seq<char>) {
        (self.local_path@, self.path_in_artifact_directory@)
    }
}

/// The upload request that a publication carries out.
#[derive(Debug, PartialEq, Eq)]
pub struct PublishRequest {
    pub provider: String,
    pub destination: String,
    pub artifact_version: String,
    pub artifact_manifest: String,
    pub artifact_file: String,
    pub artifact_support_files: Vec<PublishSupportFile>,
}

pub struct PublishRequestView {
    pub provider: Seq<char>,
    pub destination: Seq<char>,
    pub artifact_version: Seq<char>,
    pub artifact_manifest: Seq<char>,
    pub artifact_file: Seq<char>,
    pub artifact_support_files: Seq<(Seq<char>, Seq<char>)>,
}

pub open spec fn support_files_view(v: Seq<PublishSupportFile>) -> Seq<(Seq<char>, Seq<char>)> {
    Seq::new(v.len(), |i: int| v[i]@)
}

impl View for PublishRequest {
    type V = PublishRequestView;

    open spec fn view(&self) -> PublishRequestView {
        PublishRequestView {
            provider: self.provider@,
            destination: self.destination@,
            artifact_version: self.artifact_version@,
            artifact_manifest: self.artifact_manifest@,
            artifact_file: self.artifact_file@,
            artifact_support_files: support_files_view(self.artifact_support_files@),
        }
    }
}

/// "field `KEY` must be a non-empty string"
pub open spec fn not_filled_message(key: Seq<char>) -> Seq<char> {
    "field `"@ + key + "` must be a non-empty string"@
}

/// The string under `key` when it is not blank.
pub open spec fn filled_read(o: Seq<(Seq<char>, Json)>, key: Seq<char>) -> Result<Seq<char>, Seq<char>> {
    match entries_get(o, key) {
        Some(Json::Str(s)) => if is_blank(s) {
            Err(not_filled_message(key))
        } else {
            Ok(s)
        },
        _ => Err(not_filled_message(key)),
    }
}

/// Reads the string under `key`, which must not be blank.
pub fn read_filled(o: &Vec<(String, JsonValue)>, key: &str) -> (r: Result<String, String>)
    ensures
        match filled_read(entries_view(o@), key@) {
            Ok(s) => r matches Ok(x) && x@ == s,
            Err(m) => r matches Err(x) && x@ == m,
        },
{
    match map_get(o, key) {
        Some(JsonValue::Str(s)) => if crate::text::blank(s.as_str()) {
            Err(cat3("field `", key, "` must be a non-empty string"))
        } else {
            Ok(s.clone())
        },
        _ => Err(cat3("field `", key, "` must be a non-empty string")),
    }
}

/// The check that the string under `key` is `expected`.
pub open spec fn const_read(o: Seq<(Seq<char>, Json)>, key: Seq<char>, expected: Seq<char>) -> Option<
    Seq<char>,
> {
    match filled_read(o, key) {
        Err(m) => Some(m),
        Ok(a) => if a != expected {
            Some("field `"@ + key + "` must be `"@ + expected + "`, got `"@ + a + "`"@)
        } else {
            None
        },
    }
}

/// Checks that the string under `key` is `expected`: the message of the
/// refusal, or `None`.
pub fn check_const(o: &Vec<(String, JsonValue)>, key: &str, expected: &str) -> (r: Option<String>)
    ensures
        match const_read(entries_view(o@), key@, expected@) {
            Some(m) => r matches Some(x) && x@ == m,
            None => r is None,
        },
{
    match read_filled(o, key) {
        Err(m) => Some(m),
        Ok(a) => if !crate::json::text_eq(a.as_str(), expected) {
            let mut m = cat3("field `", key, "` must be `");
            m.append(expected);
            m.append("`, got `");
            m.append(a.as_str());
            m.append("`");
            Some(m)
        } else {
            None
        },
    }
}

/// The support files that the entries from position `i` on list, or the
/// first refusal among them.
pub open spec fn support_files_from(items: Seq<Json>, i: int) -> Result<Seq<(Seq<char>, Seq<char>)>, Seq<char>>
    decreases items.len() - i,
{
    if i < 0 || i >= items.len() {
        Ok(Seq::empty())
    } else {
        match items[i] {
            Json::Object(e) => match filled_read(e, "local_path"@) {
                Err(m) => Err(m),
                Ok(l) => match filled_read(e, "path_in_artifact_directory"@) {
                    Err(m) => Err(m),
                    Ok(p) => match support_files_from(items, i + 1) {
                        Err(m) => Err(m),
                        Ok(rest) => Ok(seq![(l, p)] + rest),
                    },
                },
            },
            _ => Err("artifact_support_files entries must be json objects"@),
        }
    }
}

/// `acc` followed by what `r` lists, or the refusal of `r`.
pub open spec fn after_files(acc: Seq<(Seq<char>, Seq<char>)>, r: Result<Seq<(Seq<char>, Seq<char>)>, Seq<char>>) -> Result<
    Seq<(Seq<char>, Seq<char>)>,
    Seq<char>,
> {
    match r {
        Ok(rest) => Ok(acc + rest),
        Err(m) => Err(m),
    }
}

fn read_support_files(items: &Vec<JsonValue>) -> (r: Result<Vec<PublishSupportFile>, String>)
    ensures
        match support_files_from(items_view(items@), 0) {
            Ok(fs) => r matches Ok(x) && support_files_view(x@) == fs,
            Err(m) => r matches Err(x) && x@ == m,
        },
{
    let ghost iv = items_view(items@);
    let mut acc: Vec<PublishSupportFile> = Vec::new();
    let mut i: usize = 0;
    assert(support_files_view(acc@) + Seq::<(Seq<char>, Seq<char>)>::empty() =~= support_files_view(acc@));
    while i < items.len()
        invariant
            iv == items_view(items@),
            i <= items.len(),
            support_files_from(iv, 0) == after_files(support_files_view(acc@), support_files_from(iv, i as int)),
        decreases items.len() - i,
    {
        assert(iv[i as int] == items[i as int]@);
        match &items[i] {
            JsonValue::Object(e) => {
                proof {
                    lemma_object_view(*e);
                }
                let l = read_filled(e, "local_path")?;
                let p = read_filled(e, "path_in_artifact_directory")?;
                let ghost before = support_files_view(acc@);
                let ghost lp = (l@, p@);
                acc.push(PublishSupportFile { local_path: l, path_in_artifact_directory: p });
                proof {
                    assert(support_files_view(acc@) =~= before.push(lp));
                    match support_files_from(iv, i + 1) {
                        Ok(rest) => {
                            assert(before + (seq![lp] + rest) =~= before.push(lp) + rest);
                        },
                        Err(_) => {},
                    }
                }
            },
            _ => {
                return Err(owned("artifact_support_files entries must be json objects"));
            },
        }
        i += 1;
    }
    assert(support_files_view(acc@) + Seq::<(Seq<char>, Seq<char>)>::empty() =~= support_files_view(acc@));
    Ok(acc)
}

/// The upload request that a parsed document holds, or why it is refused:
/// an object with schema `1` and operation `upload`, naming the provider,
/// the destination and the artifact's version, manifest and file, with
/// an optional list of support files.
pub open spec fn request_spec(doc: Json) -> Result<PublishRequestView, Seq<char>> {
    match doc {
        Json::Object(o) => match const_read(o, "schema_version"@, "1"@) {
            Some(m) => Err(m),
            None => match const_read(o, "operation"@, "upload"@) {
                Some(m) => Err(m),
                None => match filled_read(o, "provider"@) {
                    Err(m) => Err(m),
                    Ok(provider) => match filled_read(o, "destination"@) {
                        Err(m) => Err(m),
                        Ok(destination) => match filled_read(o, "artifact_version"@) {
                            Err(m) => Err(m),
                            Ok(artifact_version) => match filled_read(o, "artifact_manifest"@) {
                                Err(m) => Err(m),
                                Ok(artifact_manifest) => match filled_read(o, "artifact_file"@) {
                                    Err(m) => Err(m),
                                    Ok(artifact_file) => {
                                        let files = match entries_get(o, "artifact_support_files"@) {
                                            None => Ok(Seq::empty()),
                                            Some(Json::Array(items)) => support_files_from(items, 0),
                                            Some(_) => Err(
                                                "field `artifact_support_files` must be an array"@,
                                            ),
                                        };
                                        match files {
                                            Err(m) => Err(m),
                                            Ok(fs) => Ok(
                                                PublishRequestView {
                                                    provider,
                                                    destination,
                                                    artifact_version,
                                                    artifact_manifest,
                                                    artifact_file,
                                                    artifact_support_files: fs,
                                                },
                                            ),
                                        }
                                    },
                                },
                            },
                        },
                    },
                },
            },
        },
        _ => Err("upload request must be a json object"@),
    }
}

/// Reads the upload request from a parsed document. (Reading and parsing
/// the file happen before.)
pub fn load_request(document: &JsonValue) -> (r: Result<PublishRequest, String>)
    ensures
        match request_spec(document@) {
            Ok(v) => r matches Ok(x) && x@ == v,
            Err(m) => r matches Err(x) && x@ == m,
        },
{
    let o = match document {
        JsonValue::Object(o) => o,
        _ => {
            return Err(owned("upload request must be a json object"));
        },
    };
    proof {
        lemma_object_view(*o);
    }
    if let Some(m) = check_const(o, "schema_version", "1") {
        return Err(m);
    }
    if let Some(m) = check_const(o, "operation", "upload") {
        return Err(m);
    }
    let provider = read_filled(o, "provider")?;
    let destination = read_filled(o, "destination")?;
    let artifact_version = read_filled(o, "artifact_version")?;
    let artifact_manifest = read_filled(o, "artifact_manifest")?;
    let artifact_file = read_filled(o, "artifact_file")?;
    let artifact_support_files = match map_get(o, "artifact_support_files") {
        None => {
            let v: Vec<PublishSupportFile> = Vec::new();
            assert(support_files_view(v@) =~= Seq::<(Seq<char>, Seq<char>)>::empty());
            v
        },
        Some(JsonValue::Array(items)) => {
            proof {
                lemma_array_view(*items);
            }
            read_support_files(items)?
        },
        Some(_) => {
            return Err(owned("field `artifact_support_files` must be an array"));
        },
    };
    Ok(
        PublishRequest {
            provider,
            destination,
            artifact_version,
            artifact_manifest,
            artifact_file,
            artifact_support_files,
        },
    )
}

/// "huggingface publish requires request.provider = `huggingface`, got `P`"
pub open spec fn provider_message(provider: Seq<char>) -> Seq<char> {
    "huggingface publish requires request.provider = `huggingface`, got `"@ + provider + "`"@
}

/// Refuses a request for another provider than `huggingface`.
pub fn check_provider(request: &PublishRequest) -> (r: Result<(), String>)
    ensures
        request.provider@ == "huggingface"@ ==> r is Ok,
        request.provider@ != "huggingface"@ ==> (r matches Err(m) && m@ == provider_message(
            request.provider@,
        )),
{
    if crate::json::text_eq(request.provider.as_str(), "huggingface") {
        Ok(())
    } else {
        Err(cat3(
            "huggingface publish requires request.provider = `huggingface`, got `",
            request.provider.as_str(),
            "`",
        ))
    }
}

/// Where the receipt is written: the `--out` path, or
/// `artifacts/deploy/VERSION/huggingface_publish_receipt.json`.
pub open spec fn receipt_path_spec(out_path: Option<Seq<char>>, version: Seq<char>) -> Seq<char> {
    match out_path {
        Some(p) => p,
        None => path_join(
            path_join(path_join("artifacts"@, "deploy"@), version),
            "huggingface_publish_receipt.json"@,
        ),
    }
}

/// The path of the receipt.
pub fn receipt_path(args: &HfPublishArgs, request: &PublishRequest) -> (r: String)
    ensures
        r@ == receipt_path_spec(args@.out_path, request.artifact_version@),
{
    match &args.out_path {
        Some(p) => p.clone(),
        None => {
            let a = join_path("artifacts", "deploy");
            let b = join_path(a.as_str(), request.artifact_version.as_str());
            join_path(b.as_str(), "huggingface_publish_receipt.json")
        },
    }
}

/// `afterburner/VERSION/NAME`
pub open spec fn repo_path(version: Seq<char>, name: Seq<char>) -> Seq<char> {
    "afterburner/"@ + version + "/"@ + name
}

/// The files to upload, each with its place in the repository: the
/// model, the manifest, the request itself, then each support file.
pub open spec fn upload_plan(request_path: Seq<char>, r: PublishRequestView) -> Seq<(Seq<char>, Seq<char>)> {
    let v = r.artifact_version;
    seq![
        (r.artifact_file, repo_path(v, "model.mpk"@)),
        (r.artifact_manifest, repo_path(v, "manifest.toml"@)),
        (request_path, repo_path(v, "artifact_upload_request.json"@)),
    ] + Seq::new(
        r.artifact_support_files.len(),
        |i: int| (r.artifact_support_files[i].0, repo_path(v, r.artifact_support_files[i].1)),
    )
}

/// A file to upload and its place in the repository.
#[derive(Debug, PartialEq, Eq)]
pub struct PlannedUpload {
    pub local_path: String,
    pub path_in_repo: String,
}

impl View for PlannedUpload {
    type V = (Seq<char>, Seq<char>);

    open spec fn view(&self) -> (Seq<char>, Seq<char>) {
        (self.local_path@, self.path_in_repo@)
    }
}

pub open spec fn uploads_view(v: Seq<PlannedUpload>) -> Seq<(Seq<char>, Seq<char>)> {
    Seq::new(v.len(), |i: int| v[i]@)
}

fn in_repo(version: &str, name: &str) -> (r: String)
    ensures
        r@ == repo_path(version@, name@),
{
    cat4("afterburner/", version, "/", name)
}

/// The files to upload, in order.
pub fn plan_uploads(request_path: &str, request: &PublishRequest) -> (r: Vec<PlannedUpload>)
    ensures
        uploads_view(r@) == upload_plan(request_path@, request@),
{
    let v = request.artifact_version.as_str();
    let mut r: Vec<PlannedUpload> = Vec::new();
    r.push(PlannedUpload { local_path: request.artifact_file.clone(), path_in_repo: in_repo(v, "model.mpk") });
    r.push(
        PlannedUpload {
            local_path: request.artifact_manifest.clone(),
            path_in_repo: in_repo(v, "manifest.toml"),
        },
    );
    r.push(
        PlannedUpload {
            local_path: owned(request_path),
            path_in_repo: in_repo(v, "artifact_upload_request.json"),
        },
    );
    let ghost head = uploads_view(r@);
    let ghost fs = request@.artifact_support_files;
    let files = &request.artifact_support_files;
    let mut i: usize = 0;
    while i < files.len()
        invariant
            fs == support_files_view(files@),
            v@ == request@.artifact_version,
            i <= files.len(),
            uploads_view(r@) == head + Seq::new(
                i as nat,
                |k: int| (fs[k].0, repo_path(v@, fs[k].1)),
            ),
        decreases files.len() - i,
    {
        let ghost before = uploads_view(r@);
        let u = PlannedUpload {
            local_path: files[i].local_path.clone(),
            path_in_repo: in_repo(v, files[i].path_in_artifact_directory.as_str()),
        };
        let ghost uv = u@;
        r.push(u);
        proof {
            assert(fs[i as int] == files[i as int]@);
            assert(uv == (fs[i as int].0, repo_path(v@, fs[i as int].1)));
            assert(uploads_view(r@) =~= before.push(uv));
            assert(uploads_view(r@) =~= head + Seq::new(
                (i + 1) as nat,
                |k: int| (fs[k].0, repo_path(v@, fs[k].1)),
            ));
        }
        i += 1;
    }
    assert(head =~= seq![
        (request@.artifact_file, repo_path(v@, "model.mpk"@)),
        (request@.artifact_manifest, repo_path(v@, "manifest.toml"@)),
        (request_path@, repo_path(v@, "artifact_upload_request.json"@)),
    ]);
    r
}

/// The arguments of the `hf upload` call for one file.
pub open spec fn upload_command_spec(repo_id: Seq<char>, revision: Seq<char>, u: (Seq<char>, Seq<char>)) -> Seq<
    Seq<char>,
> {
    seq!["upload"@, repo_id, u.0, u.1, "--repo-type"@, "model"@, "--revision"@, revision]
}

/// The arguments to hand to the `hf` program to upload one file.
pub fn upload_command(repo_id: &str, revision: &str, upload: &PlannedUpload) -> (r: Vec<String>)
    ensures
        texts_view(r@) == upload_command_spec(repo_id@, revision@, upload@),
{
    let mut r: Vec<String> = Vec::new();
    r.push(owned("upload"));
    r.push(owned(repo_id));
    r.push(upload.local_path.clone());
    r.push(upload.path_in_repo.clone());
    r.push(owned("--repo-type"));
    r.push(owned("model"));
    r.push(owned("--revision"));
    r.push(owned(revision));
    assert(texts_view(r@) =~= upload_command_spec(repo_id@, revision@, upload@));
    r
}

/// "hf upload failed for `LOCAL` -> `PATH`: STDERR", with the error output
/// trimmed.
pub open spec fn upload_failure_spec(u: (Seq<char>, Seq<char>), stderr: Seq<char>) -> Seq<char> {
    "hf upload failed for `"@ + u.0 + "` -> `"@ + u.1 + "`: "@ + trimmed(stderr)
}

/// The message for an upload that the `hf` program refused.
pub fn upload_failure_message(upload: &PlannedUpload, stderr: &str) -> (r: String)
    ensures
        r@ == upload_failure_spec(upload@, stderr@),
{
    let mut m = cat3("hf upload failed for `", upload.local_path.as_str(), "` -> `");
    m.append(upload.path_in_repo.as_str());
    m.append("`: ");
    let t = crate::text::trim(stderr);
    m.append(t.as_str());
    m
}

pub open spec fn uploaded_file_json(u: (Seq<char>, Seq<char>)) -> Json {
    object_of(seq![("local_path"@, Json::Str(u.0)), ("path_in_repo"@, Json::Str(u.1))])
}

/// The receipt of a publication: where the files went, from which request,
/// and when.
pub open spec fn receipt_spec(
    args: HfPublishArgsView,
    request: PublishRequestView,
    uploads: Seq<(Seq<char>, Seq<char>)>,
    published_at_unix_ms: u64,
) -> Json {
    object_of(
        seq![
            ("schema_version"@, Json::Str("1"@)),
            ("repo_id"@, Json::Str(request.destination)),
            ("revision"@, Json::Str(args.revision)),
            ("request_path"@, Json::Str(args.request_path)),
            ("artifact_version"@, Json::Str(request.artifact_version)),
            ("uploaded_files"@, Json::Array(Seq::new(uploads.len(), |i: int| uploaded_file_json(uploads[i])))),
            ("published_at_unix_ms"@, Json::UInt(published_at_unix_ms)),
        ],
    )
}

fn uploaded_file(u: &PlannedUpload) -> (r: JsonValue)
    ensures
        r@ == uploaded_file_json(u@),
{
    let mut pairs: Vec<(String, JsonValue)> = Vec::new();
    pairs.push((owned("local_path"), JsonValue::Str(u.local_path.clone())));
    pairs.push((owned("path_in_repo"), JsonValue::Str(u.path_in_repo.clone())));
    assert(entries_view(pairs@) =~= seq![
        ("local_path"@, Json::Str(u@.0)),
        ("path_in_repo"@, Json::Str(u@.1)),
    ]);
    object_from_pairs(pairs)
}

/// Builds the receipt of a publication once every upload went through.
pub fn build_receipt(
    args: &HfPublishArgs,
    request: &PublishRequest,
    uploads: &Vec<PlannedUpload>,
    published_at_unix_ms: u64,
) -> (r: JsonValue)
    ensures
        r@ == receipt_spec(args@, request@, uploads_view(uploads@), published_at_unix_ms),
{
    let ghost uv = uploads_view(uploads@);
    let mut files: Vec<JsonValue> = Vec::new();
    let mut i: usize = 0;
    while i < uploads.len()
        invariant
            uv == uploads_view(uploads@),
            i <= uploads.len(),
            items_view(files@) == Seq::new(i as nat, |k: int| uploaded_file_json(uv[k])),
        decreases uploads.len() - i,
    {
        let ghost before = items_view(files@);
        let f = uploaded_file(&uploads[i]);
        let ghost fj = f@;
        files.push(f);
        proof {
            assert(uv[i as int] == uploads[i as int]@);
            assert(items_view(files@) =~= before.push(fj));
            assert(items_view(files@) =~= Seq::new((i + 1) as nat, |k: int| uploaded_file_json(uv[k])));
        }
        i += 1;
    }
    proof {
        lemma_array_view(files);
    }
    let ghost fv = items_view(files@);
    let mut pairs: Vec<(String, JsonValue)> = Vec::new();
    pairs.push((owned("schema_version"), JsonValue::Str(owned("1"))));
    pairs.push((owned("repo_id"), JsonValue::Str(request.destination.clone())));
    pairs.push((owned("revision"), JsonValue::Str(args.revision.clone())));
    pairs.push((owned("request_path"), JsonValue::Str(args.request_path.clone())));
    pairs.push((owned("artifact_version"), JsonValue::Str(request.artifact_version.clone())));
    pairs.push((owned("uploaded_files"), JsonValue::Array(files)));
    pairs.push((owned("published_at_unix_ms"), JsonValue::UInt(published_at_unix_ms)));
    assert(fv =~= Seq::new(uv.len(), |k: int| uploaded_file_json(uv[k])));
    assert(entries_view(pairs@) =~= seq![
        ("schema_version"@, Json::Str("1"@)),
        ("repo_id"@, Json::Str(request@.destination)),
        ("revision"@, Json::Str(args@.revision)),
        ("request_path"@, Json::Str(args@.request_path)),
        ("artifact_version"@, Json::Str(request@.artifact_version)),
        ("uploaded_files"@, Json::Array(fv)),
        ("published_at_unix_ms"@, Json::UInt(published_at_unix_ms)),
    ]);
    object_from_pairs(pairs)
}

} // verus!
