use vstd::prelude::*;
use vstd::string::StrSliceExecFns;
use crate::json::chars_of;
use crate::text::{blank, is_blank, parse_u64, parse_u64_spec};

verus! {

/// One piece of evidence that a verification rests on: the artifact it
/// was found in, the event and when it was observed.
#[derive(Debug, PartialEq, Eq)]
pub struct EvidenceSource {
    pub artifact_path: String,
    pub event_name: String,
    pub observed_at_unix_ms: u64,
}

impl View for EvidenceSource {
    type V = (Seq<char>, Seq<char>, u64);

    open spec fn view(&self) -> (Seq<char>, Seq<char>, u64) {
        (self.artifact_path@, self.event_name@, self.observed_at_unix_ms)
    }
}

/// The position of the first comma at or after `from`, if any.
pub open spec fn comma_from(s: Seq<char>, from: int) -> Option<int>
    decreases s.len() - from,
{
    if from < 0 || from >= s.len() {
        None
    } else if s[from] == ',' {
        Some(from)
    } else {
        comma_from(s, from + 1)
    }
}

/// The text cut at its first two commas, as `splitn(3, ',')` cuts it;
/// `None` when it has fewer than two commas.
pub open spec fn three_parts(s: Seq<char>) -> Option<(Seq<char>, Seq<char>, Seq<char>)> {
    match comma_from(s, 0) {
        None => None,
        Some(i) => match comma_from(s, i + 1) {
            None => None,
            Some(j) => Some((s.subrange(0, i), s.subrange(i + 1, j), s.subrange(j + 1, s.len() as int))),
        },
    }
}

/// The evidence that `ARTIFACT_PATH,EVENT_NAME,OBSERVED_AT_UNIX_MS`
/// describes, or the message of its refusal (each ends with the usage).
pub open spec fn evidence_spec(raw: Seq<char>, usage: Seq<char>) -> Result<(Seq<char>, Seq<char>, u64), Seq<char>> {
    match three_parts(raw) {
        None => Err(
            "invalid value for --evidence-source `"@ + raw
                + "`; expected ARTIFACT_PATH,EVENT_NAME,OBSERVED_AT_UNIX_MS\n"@ + usage,
        ),
        Some((a, e, t)) => match parse_u64_spec(t) {
            None => Err("invalid observed_at_unix_ms in --evidence-source `"@ + raw + "`\n"@ + usage),
            Some(ms) => if is_blank(a) || is_blank(e) {
                Err(
                    "invalid value for --evidence-source `"@ + raw
                        + "`; artifact path and event name must be non-empty\n"@ + usage,
                )
            } else {
                Ok((a, e, ms))
            },
        },
    }
}

proof fn lemma_comma_at(s: Seq<char>, i: int, k: int)
    requires
        0 <= i <= k < s.len(),
        s[k] == ',',
        forall|j: int| i <= j < k ==> s[j] != ',',
    ensures
        comma_from(s, i) == Some(k),
    decreases k - i,
{
    if i < k {
        lemma_comma_at(s, i + 1, k);
    }
}

/// The text of an evidence source reads back as that source, when its
/// artifact path and event name hold no comma and are not blank.
pub proof fn law_evidence_round_trip(artifact: Seq<char>, event: Seq<char>, observed: u64, usage: Seq<char>)
    requires
        !artifact.contains(','),
        !event.contains(','),
        !is_blank(artifact),
        !is_blank(event),
    ensures
        evidence_spec(artifact + ","@ + event + ","@ + crate::text::decimal(observed as nat), usage) == Ok::<
            (Seq<char>, Seq<char>, u64),
            Seq<char>,
        >((artifact, event, observed)),
{
    let t = crate::text::decimal(observed as nat);
    let s = artifact + ","@ + event + ","@ + t;
    reveal_strlit(",");
    let i = artifact.len() as int;
    let j = i + 1 + event.len();
    assert forall|x: int| 0 <= x < i implies s[x] != ',' by {
        assert(s[x] == artifact[x]);
        if s[x] == ',' {
            assert(artifact.contains(','));
        }
    }
    assert(s[i] == ',');
    lemma_comma_at(s, 0, i);
    assert forall|x: int| i + 1 <= x < j implies s[x] != ',' by {
        assert(s[x] == event[x - i - 1]);
        if s[x] == ',' {
            assert(event.contains(','));
        }
    }
    assert(s[j] == ',');
    lemma_comma_at(s, i + 1, j);
    assert(s.subrange(0, i) =~= artifact);
    assert(s.subrange(i + 1, j) =~= event);
    assert(s.subrange(j + 1, s.len() as int) =~= t);
    crate::text::law_decimal_round_trip(observed);
}

fn find_comma(cs: &Vec<char>, from: usize) -> (r: Option<usize>)
    requires
        from <= cs.len(),
    ensures
        match r {
            Some(i) => comma_from(cs@, from as int) == Some(i as int) && from <= i < cs.len(),
            None => comma_from(cs@, from as int) is None,
        },
{
    let mut i = from;
    while i < cs.len()
        invariant
            from <= i <= cs.len(),
            comma_from(cs@, from as int) == comma_from(cs@, i as int),
        decreases cs.len() - i,
    {
        if cs[i] == ',' {
            return Some(i);
        }
        i += 1;
    }
    None
}

fn message3(a: &str, b: &str, c: &str, usage: &str) -> (r: String)
    ensures
        r@ == a@ + b@ + c@ + usage@,
{
    let mut m = String::from_str(a);
    m.append(b);
    m.append(c);
    m.append(usage);
    m
}

/// Parses one `--evidence-source` value.
pub fn parse_evidence_source(raw: &str, usage: &str) -> (r: Result<EvidenceSource, String>)
    ensures
        match evidence_spec(raw@, usage@) {
            Ok(v) => r matches Ok(x) && x@ == v,
            Err(m) => r matches Err(x) && x@ == m,
        },
{
    let cs = chars_of(raw);
    let i = match find_comma(&cs, 0) {
        Some(i) => i,
        None => {
            return Err(message3(
                "invalid value for --evidence-source `",
                raw,
                "`; expected ARTIFACT_PATH,EVENT_NAME,OBSERVED_AT_UNIX_MS\n",
                usage,
            ));
        },
    };
    let j = match find_comma(&cs, i + 1) {
        Some(j) => j,
        None => {
            return Err(message3(
                "invalid value for --evidence-source `",
                raw,
                "`; expected ARTIFACT_PATH,EVENT_NAME,OBSERVED_AT_UNIX_MS\n",
                usage,
            ));
        },
    };
    let a = raw.substring_char(0, i);
    let e = raw.substring_char(i + 1, j);
    let t = raw.substring_char(j + 1, cs.len());
    let ms = match parse_u64(t) {
        Some(ms) => ms,
        None => {
            return Err(message3("invalid observed_at_unix_ms in --evidence-source `", raw, "`\n", usage));
        },
    };
    if blank(a) || blank(e) {
        return Err(message3(
            "invalid value for --evidence-source `",
            raw,
            "`; artifact path and event name must be non-empty\n",
            usage,
        ));
    }
    Ok(EvidenceSource { artifact_path: String::from_str(a), event_name: String::from_str(e), observed_at_unix_ms: ms })
}

} // verus!
