use vstd::prelude::*;
use crate::cli::{
    empty_message, last_number, last_number_of, last_text, last_text_of, missing_arg,
    missing_message, opt_view, require_arg, require_filled, require_non_empty, rule, rules_view,
    scan, scan_args, texts_view, FlagRule, InlineForm, RuleSpec, ValueKind,
};
use crate::fields::{
    check_reads, first_read_failure, json_outcome, outcome, read, reads_view, str_field, str_of,
    u64_field, u64_of, value_field, value_of, CommandError, Failure, ReadKind,
};
use crate::fields::{or_else, push_opt_str, push_opt_text, with_opt_str, with_opt_text};
use crate::json::{entries_get, entries_view, object_from_pairs, object_of, Json, JsonValue};
use crate::text::{is_blank, owned, trimmed};
use vstd::string::{StrSliceExecFns, StringExecFns};
use crate::json::chars_of;
use crate::text::{decimal, decimal_text, is_space};

verus! {

/// The arguments of `distributed-load-profile`.
#[derive(Debug, PartialEq, Eq)]
pub struct LoadProfileArgs {
    pub addr: String,
    pub requests: u64,
    pub concurrency: u64,
    pub latency_budget_ms_p99: String,
    pub error_budget_ratio: String,
    pub out_path: String,
}

pub struct LoadProfileArgsView {
    pub addr: Seq<char>,
    pub requests: u64,
    pub concurrency: u64,
    pub latency_budget_ms_p99: Seq<char>,
    pub error_budget_ratio: Seq<char>,
    pub out_path: Seq<char>,
}

impl View for LoadProfileArgs {
    type V = LoadProfileArgsView;

    open spec fn view(&self) -> LoadProfileArgsView {
        LoadProfileArgsView {
            addr: self.addr@,
            requests: self.requests,
            concurrency: self.concurrency,
            latency_budget_ms_p99: self.latency_budget_ms_p99@,
            error_budget_ratio: self.error_budget_ratio@,
            out_path: self.out_path@,
        }
    }
}

pub open spec fn usage_text() -> Seq<char> {
    "usage: afterburner distributed-load-profile --addr HOST:PORT --requests N --concurrency N --latency-budget-ms-p99 F64 --error-budget-ratio F64 [--out PATH]"@
}

pub fn usage() -> (r: &'static str)
    ensures
        r@ == usage_text(),
{
    "usage: afterburner distributed-load-profile --addr HOST:PORT --requests N --concurrency N --latency-budget-ms-p99 F64 --error-budget-ratio F64 [--out PATH]"
}

pub open spec fn rules_spec() -> Seq<RuleSpec> {
    seq![
        RuleSpec { name: "--addr"@, kind: ValueKind::Text, inline: InlineForm::StripAll },
        RuleSpec { name: "--requests"@, kind: ValueKind::Number, inline: InlineForm::StripAll },
        RuleSpec { name: "--concurrency"@, kind: ValueKind::Number, inline: InlineForm::StripAll },
        RuleSpec { name: "--latency-budget-ms-p99"@, kind: ValueKind::Decimal, inline: InlineForm::StripAll },
        RuleSpec { name: "--error-budget-ratio"@, kind: ValueKind::Decimal, inline: InlineForm::StripAll },
        RuleSpec { name: "--out"@, kind: ValueKind::Text, inline: InlineForm::StripAll },
    ]
}

fn rules() -> (r: Vec<FlagRule>)
    ensures
        rules_view(r@) == rules_spec(),
{
    let mut r = Vec::new();
    r.push(rule("--addr", ValueKind::Text, InlineForm::StripAll));
    r.push(rule("--requests", ValueKind::Number, InlineForm::StripAll));
    r.push(rule("--concurrency", ValueKind::Number, InlineForm::StripAll));
    r.push(rule("--latency-budget-ms-p99", ValueKind::Decimal, InlineForm::StripAll));
    r.push(rule("--error-budget-ratio", ValueKind::Decimal, InlineForm::StripAll));
    r.push(rule("--out", ValueKind::Text, InlineForm::StripAll));
    assert(rules_view(r@) =~= rules_spec());
    r
}

/// The arguments that the command line gives, or why it is refused.
pub open spec fn parse_args_spec(args: Seq<Seq<char>>) -> Result<LoadProfileArgsView, Failure> {
    match scan(rules_spec(), args, "distributed-load-profile"@, usage_text()) {
        Err(m) => Err(Failure::InvalidArg(m)),
        Ok(a) => {
            match last_number(a, 1) {
                None => Err(Failure::InvalidArg(missing_message("--requests"@, usage_text()))),
                Some(v_requests) => {
                    match last_number(a, 2) {
                        None => Err(Failure::InvalidArg(missing_message("--concurrency"@, usage_text()))),
                        Some(v_concurrency) => {
                            if !(v_requests != 0 && v_concurrency != 0) { Err(Failure::InvalidArg("--requests and --concurrency must be greater than 0\n"@ + usage_text())) } else {
                            match last_text(a, 0) {
                                None => Err(Failure::InvalidArg(missing_message("--addr"@, usage_text()))),
                                Some(v_addr) => if is_blank(v_addr) { Err(Failure::InvalidArg(empty_message("--addr"@, usage_text()))) } else {
                                    match last_text(a, 3) {
                                        None => Err(Failure::InvalidArg(missing_message("--latency-budget-ms-p99"@, usage_text()))),
                                        Some(v_latency_budget_ms_p99) => {
                                            match last_text(a, 4) {
                                                None => Err(Failure::InvalidArg(missing_message("--error-budget-ratio"@, usage_text()))),
                                                Some(v_error_budget_ratio) => {
                                                    Ok(LoadProfileArgsView {
                                                        addr: v_addr,
                                                        requests: v_requests,
                                                        concurrency: v_concurrency,
                                                        latency_budget_ms_p99: v_latency_budget_ms_p99,
                                                        error_budget_ratio: v_error_budget_ratio,
                                                        out_path: match last_text(a, 5) { Some(p) => p, None => "artifacts/deploy/distributed_load_profile.json"@ },
                                                    })
                                                }
                                            }
                                        }
                                    }
                                }
                            }
                            }
                        }
                    }
                }
            }
        },
    }
}

pub fn parse_args(args: &Vec<String>) -> (r: Result<LoadProfileArgs, CommandError>)
    ensures
        outcome(r) == parse_args_spec(texts_view(args@)),
{
    let rules = rules();
    let a = match scan_args(&rules, args, "distributed-load-profile", usage()) {
        Ok(a) => a,
        Err(m) => {
            return Err(CommandError::InvalidArg(m));
        },
    };
    let requests = match last_number_of(&a, 1) {
        Some(n) => n,
        None => {
            return Err(CommandError::InvalidArg(missing_arg("--requests", usage())));
        },
    };
    let concurrency = match last_number_of(&a, 2) {
        Some(n) => n,
        None => {
            return Err(CommandError::InvalidArg(missing_arg("--concurrency", usage())));
        },
    };
    if !(requests != 0 && concurrency != 0) {
        return Err(CommandError::InvalidArg(crate::text::cat("--requests and --concurrency must be greater than 0\n", usage())));
    }
    let addr = match require_filled(last_text_of(&a, 0), "--addr", usage()) {
        Ok(v) => v,
        Err(m) => {
            return Err(CommandError::InvalidArg(m));
        },
    };
    let latency_budget_ms_p99 = match require_arg(last_text_of(&a, 3), "--latency-budget-ms-p99", usage()) {
        Ok(v) => v,
        Err(m) => {
            return Err(CommandError::InvalidArg(m));
        },
    };
    let error_budget_ratio = match require_arg(last_text_of(&a, 4), "--error-budget-ratio", usage()) {
        Ok(v) => v,
        Err(m) => {
            return Err(CommandError::InvalidArg(m));
        },
    };
    let out_path = match last_text_of(&a, 5) {
        Some(s) => s,
        None => owned("artifacts/deploy/distributed_load_profile.json"),
    };
    Ok(LoadProfileArgs { addr, requests, concurrency, latency_budget_ms_p99, error_budget_ratio, out_path })
}

/// The number of requests that worker `w` sends: an equal share, and one
/// more for each of the first `requests % concurrency` workers.
pub open spec fn share(requests: nat, concurrency: nat, w: nat) -> nat {
    requests / concurrency + if w < requests % concurrency {
        1nat
    } else {
        0nat
    }
}

/// The requests that the first `k` workers send together.
pub open spec fn shares_sum(requests: nat, concurrency: nat, k: nat) -> nat
    decreases k,
{
    if k == 0 {
        0
    } else {
        shares_sum(requests, concurrency, (k - 1) as nat) + share(requests, concurrency, (k - 1) as nat)
    }
}

proof fn lemma_shares_prefix(requests: nat, concurrency: nat, k: nat)
    requires
        concurrency > 0,
    ensures
        shares_sum(requests, concurrency, k) == k * (requests / concurrency) + if k < requests
            % concurrency {
            k
        } else {
            requests % concurrency
        },
    decreases k,
{
    if k > 0 {
        lemma_shares_prefix(requests, concurrency, (k - 1) as nat);
        let q = requests / concurrency;
        let m = requests % concurrency;
        assert(k * q == (k - 1) * q + q) by (nonlinear_arith)
            requires
                k > 0,
        ;
        let km1 = (k - 1) as nat;
        assert(shares_sum(requests, concurrency, k) == shares_sum(requests, concurrency, km1) + share(
            requests,
            concurrency,
            km1,
        ));
        assert(share(requests, concurrency, km1) == q + if km1 < m {
            1nat
        } else {
            0nat
        });
    } else {
        let q = requests / concurrency;
        assert(k * q == 0) by (nonlinear_arith)
            requires
                k == 0,
        ;
    }
}

/// The workers together send every request: the shares of all
/// `concurrency` workers add up to `requests`, and no two shares differ by
/// more than one.
pub proof fn lemma_shares_cover(requests: nat, concurrency: nat)
    requires
        concurrency > 0,
    ensures
        shares_sum(requests, concurrency, concurrency) == requests,
        forall|v: nat, w: nat|
            v < concurrency && w < concurrency ==> share(requests, concurrency, v) <= share(
                requests,
                concurrency,
                w,
            ) + 1,
{
    lemma_shares_prefix(requests, concurrency, concurrency);
    vstd::arithmetic::div_mod::lemma_fundamental_div_mod(requests as int, concurrency as int);
    assert(requests % concurrency < concurrency);
}

/// The share of every worker, in worker order.
pub fn plan_shares(requests: u64, concurrency: u64) -> (r: Vec<u64>)
    requires
        concurrency > 0,
    ensures
        r.len() == concurrency,
        forall|w: int| 0 <= w < r.len() ==> r[w] == share(requests as nat, concurrency as nat, w as nat),
{
    let base = requests / concurrency;
    let rem = requests % concurrency;
    let mut r: Vec<u64> = Vec::new();
    let mut w: u64 = 0;
    while w < concurrency
        invariant
            concurrency > 0,
            base == requests / concurrency,
            rem == requests % concurrency,
            w <= concurrency,
            r.len() == w,
            forall|v: int| 0 <= v < r.len() ==> r[v] == share(requests as nat, concurrency as nat, v as nat),
        decreases concurrency - w,
    {
        let extra: u64 = if w < rem {
            1
        } else {
            0
        };
        proof {
            if w < rem {
                vstd::arithmetic::div_mod::lemma_fundamental_div_mod(requests as int, concurrency as int);
                assert(concurrency * base >= base) by (nonlinear_arith)
                    requires
                        concurrency > 0,
                        base >= 0,
                ;
            }
        }
        r.push(base + extra);
        w += 1;
    }
    r
}

/// The head of the HTTP request that sends one inference.
pub open spec fn request_head_spec(addr: Seq<char>, traceparent: Seq<char>, payload_len: u64) -> Seq<char> {
    "POST /infer HTTP/1.1\r\nHost: "@ + addr + "\r\nContent-Type: application/json\r\ntraceparent: "@
        + traceparent + "\r\nContent-Length: "@ + decimal(payload_len as nat)
        + "\r\nConnection: close\r\n\r\n"@
}

/// Writes the head of the HTTP request for one inference.
pub fn request_head(addr: &str, traceparent: &str, payload_len: u64) -> (r: String)
    ensures
        r@ == request_head_spec(addr@, traceparent@, payload_len),
{
    let mut r = String::from_str("POST /infer HTTP/1.1\r\nHost: ");
    r.append(addr);
    r.append("\r\nContent-Type: application/json\r\ntraceparent: ");
    r.append(traceparent);
    r.append("\r\nContent-Length: ");
    let n = decimal_text(payload_len);
    r.append(n.as_str());
    r.append("\r\nConnection: close\r\n\r\n");
    proof {
        reveal_strlit("POST /infer HTTP/1.1\r\nHost: ");
        reveal_strlit("\r\nContent-Type: application/json\r\ntraceparent: ");
        reveal_strlit("\r\nContent-Length: ");
        reveal_strlit("\r\nConnection: close\r\n\r\n");
    }
    r
}

/// The position of the first line feed at or after `i`, or the length.
pub open spec fn line_end(s: Seq<char>, i: int) -> int
    decreases s.len() - i,
{
    if i < 0 || i >= s.len() {
        s.len() as int
    } else if s[i] == '\n' {
        i
    } else {
        line_end(s, i + 1)
    }
}

/// The first line of the text as `str::lines` gives it: up to the first
/// line feed, without a carriage return before it; `None` for no text.
pub open spec fn first_line(s: Seq<char>) -> Option<Seq<char>> {
    if s.len() == 0 {
        None
    } else {
        let e = line_end(s, 0);
        let l = s.subrange(0, e);
        if e < s.len() && l.len() > 0 && l.last() == '\r' {
            Some(l.drop_last())
        } else {
            Some(l)
        }
    }
}

/// The position of the first character at or after `i` that is not white
/// space, or the length.
pub open spec fn skip_space(s: Seq<char>, i: int) -> int
    decreases s.len() - i,
{
    if i < 0 || i >= s.len() {
        s.len() as int
    } else if !is_space(s[i]) {
        i
    } else {
        skip_space(s, i + 1)
    }
}

/// The position of the first white space at or after `i`, or the length.
pub open spec fn skip_word(s: Seq<char>, i: int) -> int
    decreases s.len() - i,
{
    if i < 0 || i >= s.len() {
        s.len() as int
    } else if is_space(s[i]) {
        i
    } else {
        skip_word(s, i + 1)
    }
}

/// The second word of the text, words being separated by white space.
pub open spec fn second_word(s: Seq<char>) -> Option<Seq<char>> {
    let a = skip_space(s, 0);
    if a >= s.len() {
        None
    } else {
        let c = skip_space(s, skip_word(s, a));
        if c >= s.len() {
            None
        } else {
            Some(s.subrange(c, skip_word(s, c)))
        }
    }
}

/// What `str::parse::<u16>` gives.
pub open spec fn parse_u16_spec(s: Seq<char>) -> Option<u16> {
    match crate::text::parse_u64_spec(s) {
        Some(n) => if n <= 65535 {
            Some(n as u16)
        } else {
            None
        },
        None => None,
    }
}

/// Why the status of an HTTP response cannot be read: it has no line, its
/// first line has no second word, or that word is no `u16`.
pub enum StatusFailure {
    NoStatusLine,
    Malformed(Seq<char>),
    NotANumber(Seq<char>),
}

/// The status code of an HTTP response, read from the second word of its
/// first line.
pub open spec fn status_spec(response: Seq<char>) -> Result<u16, StatusFailure> {
    match first_line(response) {
        None => Err(StatusFailure::NoStatusLine),
        Some(line) => match second_word(line) {
            None => Err(StatusFailure::Malformed(line)),
            Some(w) => match parse_u16_spec(w) {
                Some(code) => Ok(code),
                None => Err(StatusFailure::NotANumber(line)),
            },
        },
    }
}

/// The text of the error that `str::parse::<u16>` gives for the text (the
/// empty text where it reads a number): a function of the text alone.
pub uninterp spec fn u16_parse_reason(text: Seq<char>) -> Seq<char>;

/// The `Display` text of the error of `s.parse::<u16>()`, or nothing where
/// it reads a number. The result is named by `u16_parse_reason`.
#[verifier::external_body]
fn u16_parse_error_text(s: &str) -> (r: String)
    ensures
        r@ == u16_parse_reason(s@),
{
    match s.parse::<u16>() {
        Ok(_) => String::new(),
        Err(e) => format!("{e}"),
    }
}

fn skip_space_exec(cs: &Vec<char>, i: usize, hi: usize) -> (r: usize)
    requires
        i <= hi <= cs.len(),
    ensures
        r == skip_space(cs@.subrange(0, hi as int), i as int),
        i <= r <= hi,
{
    let ghost s = cs@.subrange(0, hi as int);
    let mut j = i;
    while j < hi && crate::text::char_is_space(cs[j])
        invariant
            s == cs@.subrange(0, hi as int),
            i <= j <= hi <= cs.len(),
            skip_space(s, i as int) == skip_space(s, j as int),
        decreases hi - j,
    {
        assert(s[j as int] == cs[j as int]);
        j += 1;
    }
    if j < hi {
        assert(s[j as int] == cs[j as int]);
    }
    j
}

fn skip_word_exec(cs: &Vec<char>, i: usize, hi: usize) -> (r: usize)
    requires
        i <= hi <= cs.len(),
    ensures
        r == skip_word(cs@.subrange(0, hi as int), i as int),
        i <= r <= hi,
{
    let ghost s = cs@.subrange(0, hi as int);
    let mut j = i;
    while j < hi && !crate::text::char_is_space(cs[j])
        invariant
            s == cs@.subrange(0, hi as int),
            i <= j <= hi <= cs.len(),
            skip_word(s, i as int) == skip_word(s, j as int),
        decreases hi - j,
    {
        assert(s[j as int] == cs[j as int]);
        j += 1;
    }
    if j < hi {
        assert(s[j as int] == cs[j as int]);
    }
    j
}

/// The message for a response whose status cannot be read.
pub open spec fn status_message(f: StatusFailure, reason: Seq<char>) -> Seq<char> {
    match f {
        StatusFailure::NoStatusLine => "http response missing status line"@,
        StatusFailure::Malformed(line) => "http response status line malformed: "@ + line,
        StatusFailure::NotANumber(line) => "parse http status code from `"@ + line + "`: "@ + reason,
    }
}

/// Reads the status code of an HTTP response; when it cannot, the message
/// says why (with the standard library's reason when the code is no
/// number).
pub fn response_status(response: &str) -> (r: Result<u16, String>)
    ensures
        match status_spec(response@) {
            Ok(code) => r == Ok::<u16, String>(code),
            Err(StatusFailure::NotANumber(line)) => r matches Err(m) && m@ == status_message(
                StatusFailure::NotANumber(line),
                u16_parse_reason(second_word(line)->Some_0),
            ),
            Err(f) => r matches Err(m) && m@ == status_message(f, Seq::empty()),
        },
{
    let cs = chars_of(response);
    if cs.len() == 0 {
        proof {
            reveal_strlit("http response missing status line");
        }
        return Err(String::from_str("http response missing status line"));
    }
    let mut e: usize = 0;
    while e < cs.len() && cs[e] != '\n'
        invariant
            cs@ == response@,
            e <= cs.len(),
            line_end(cs@, 0) == line_end(cs@, e as int),
        decreases cs.len() - e,
    {
        e += 1;
    }
    let hi: usize = if e < cs.len() && e > 0 && cs[e - 1] == '\r' {
        e - 1
    } else {
        e
    };
    let ghost line = cs@.subrange(0, hi as int);
    assert(first_line(response@) == Some(line)) by {
        if e > 0 {
            assert(cs@.subrange(0, e as int).drop_last() =~= cs@.subrange(0, e - 1));
        }
    }
    let line_text = response.substring_char(0, hi);
    assert(line_text@ == line);
    let a = skip_space_exec(&cs, 0, hi);
    if a >= hi {
        let mut m = String::from_str("http response status line malformed: ");
        m.append(line_text);
        proof {
            reveal_strlit("http response status line malformed: ");
        }
        return Err(m);
    }
    let b = skip_word_exec(&cs, a, hi);
    let c = skip_space_exec(&cs, b, hi);
    if c >= hi {
        let mut m = String::from_str("http response status line malformed: ");
        m.append(line_text);
        proof {
            reveal_strlit("http response status line malformed: ");
        }
        return Err(m);
    }
    let d = skip_word_exec(&cs, c, hi);
    let word = response.substring_char(c, d);
    assert(word@ == line.subrange(c as int, d as int));
    match crate::text::parse_u64(word) {
        Some(n) => if n <= 65535 {
            return Ok(n as u16);
        },
        None => {},
    }
    let reason = u16_parse_error_text(word);
    let mut m = String::from_str("parse http status code from `");
    m.append(line_text);
    m.append("`: ");
    m.append(reason.as_str());
    proof {
        reveal_strlit("parse http status code from `");
        reveal_strlit("`: ");
        assert(m@ == status_message(StatusFailure::NotANumber(line), reason@));
    }
    Err(m)
}

/// Whether an HTTP status counts as a success (`200` to `299`).
pub open spec fn is_success(status: u16) -> bool {
    200 <= status < 300
}

/// How many of the statuses are successes.
pub open spec fn successes(statuses: Seq<u16>) -> nat
    decreases statuses.len(),
{
    if statuses.len() == 0 {
        0
    } else {
        successes(statuses.drop_last()) + if is_success(statuses.last()) {
            1nat
        } else {
            0nat
        }
    }
}

proof fn lemma_successes_bound(statuses: Seq<u16>)
    ensures
        successes(statuses) <= statuses.len(),
    decreases statuses.len(),
{
    if statuses.len() > 0 {
        lemma_successes_bound(statuses.drop_last());
    }
}

/// The successes among statuses are counted one by one: those of two runs
/// of statuses add up; a run in which every status lies in `200..300` is
/// all successes, and a run in which none does has none. So the successes
/// are exactly the statuses in `200..300`, and any other status (`1xx`,
/// `3xx`, `4xx`, `5xx`) counts as an error.
pub proof fn law_success_count(a: Seq<u16>, b: Seq<u16>)
    ensures
        successes(a + b) == successes(a) + successes(b),
        successes(a) <= a.len(),
        (forall|i: int| 0 <= i < a.len() ==> 200 <= #[trigger] a[i] < 300) ==> successes(a) == a.len(),
        (forall|i: int| 0 <= i < a.len() ==> !(200 <= #[trigger] a[i] < 300)) ==> successes(a) == 0,
    decreases b.len(),
{
    lemma_successes_bound(a);
    lemma_successes_extremes(a);
    if b.len() > 0 {
        law_success_count(a, b.drop_last());
        assert((a + b).drop_last() =~= a + b.drop_last());
        assert((a + b).last() == b.last());
    } else {
        assert(a + b =~= a);
    }
}

proof fn lemma_successes_extremes(a: Seq<u16>)
    ensures
        (forall|i: int| 0 <= i < a.len() ==> 200 <= #[trigger] a[i] < 300) ==> successes(a) == a.len(),
        (forall|i: int| 0 <= i < a.len() ==> !(200 <= #[trigger] a[i] < 300)) ==> successes(a) == 0,
    decreases a.len(),
{
    if a.len() > 0 {
        lemma_successes_extremes(a.drop_last());
        if forall|i: int| 0 <= i < a.len() ==> 200 <= #[trigger] a[i] < 300 {
            assert forall|i: int| 0 <= i < a.drop_last().len() implies 200 <= #[trigger] a.drop_last()[i] < 300 by {
                assert(a.drop_last()[i] == a[i]);
            }
            assert(200 <= a[a.len() - 1] < 300);
        }
        if forall|i: int| 0 <= i < a.len() ==> !(200 <= #[trigger] a[i] < 300) {
            assert forall|i: int| 0 <= i < a.drop_last().len() implies !(200 <= #[trigger] a.drop_last()[i] < 300) by {
                assert(a.drop_last()[i] == a[i]);
            }
            assert(!(200 <= a[a.len() - 1] < 300));
        }
    }
}

/// What one worker did: how many requests it sent, and how many succeeded
/// and failed.
#[derive(Debug, PartialEq, Eq)]
pub struct WorkerSummary {
    pub worker_index: u64,
    pub request_count: u64,
    pub success_count: u64,
    pub error_count: u64,
}

/// Sums up the statuses that worker `worker_index` received.
pub fn summarize_worker(worker_index: u64, statuses: &Vec<u16>) -> (r: WorkerSummary)
    ensures
        r.worker_index == worker_index,
        r.request_count == statuses.len(),
        r.success_count == successes(statuses@),
        r.error_count == statuses.len() - successes(statuses@),
{
    let mut ok: u64 = 0;
    let mut i: usize = 0;
    assert(statuses@.take(0) =~= Seq::<u16>::empty());
    while i < statuses.len()
        invariant
            i <= statuses.len(),
            ok == successes(statuses@.take(i as int)),
            ok <= i,
        decreases statuses.len() - i,
    {
        assert(statuses@.take(i + 1).drop_last() =~= statuses@.take(i as int));
        if 200 <= statuses[i] && statuses[i] < 300 {
            ok += 1;
        }
        i += 1;
    }
    assert(statuses@.take(statuses.len() as int) =~= statuses@);
    WorkerSummary {
        worker_index,
        request_count: statuses.len() as u64,
        success_count: ok,
        error_count: statuses.len() as u64 - ok,
    }
}

pub open spec fn summary_json(s: WorkerSummary) -> Json {
    object_of(
        seq![
            ("worker_index"@, Json::UInt(s.worker_index)),
            ("request_count"@, Json::UInt(s.request_count)),
            ("success_count"@, Json::UInt(s.success_count)),
            ("error_count"@, Json::UInt(s.error_count)),
        ],
    )
}

/// The entry of one worker in the profile's `worker_distribution`.
pub fn worker_entry(s: &WorkerSummary) -> (r: JsonValue)
    ensures
        r@ == summary_json(*s),
{
    let mut pairs: Vec<(String, JsonValue)> = Vec::new();
    pairs.push((owned("worker_index"), JsonValue::UInt(s.worker_index)));
    pairs.push((owned("request_count"), JsonValue::UInt(s.request_count)));
    pairs.push((owned("success_count"), JsonValue::UInt(s.success_count)));
    pairs.push((owned("error_count"), JsonValue::UInt(s.error_count)));
    assert(entries_view(pairs@) =~= seq![
        ("worker_index"@, Json::UInt(s.worker_index)),
        ("request_count"@, Json::UInt(s.request_count)),
        ("success_count"@, Json::UInt(s.success_count)),
        ("error_count"@, Json::UInt(s.error_count)),
    ]);
    object_from_pairs(pairs)
}

} // verus!
