use vstd::prelude::*;
use crate::evidence_source::{evidence_spec, parse_evidence_source};
use crate::float_text::{float_syntax, is_float_text};
use crate::json::text_eq;
use crate::text::{
    after_equals, after_first, blank, cat, has_prefix, is_blank, parse_i64, parse_i64_spec, parse_u64,
    parse_u64_spec,
    starts_with, strip_all, strip_prefixes, trim, trimmed,
};

verus! {

/// How a flag's value is checked.
pub enum ValueKind {
    /// Any text.
    Text,
    /// A `u64` in decimal; else "invalid value for FLAG".
    Number,
    /// Text that is not blank; else "invalid value for FLAG".
    FilledOrInvalid,
    /// Text that is not blank; else "FLAG must be non-empty".
    FilledOrEmpty,
    /// After the flag, text that is not blank, else "missing value for
    /// FLAG"; in the `--flag=value` form, any text.
    FilledOrMissing,
    /// A floating-point number as `f64` reads it, kept as its text; else
    /// "invalid value for FLAG".
    Decimal,
    /// `ARTIFACT_PATH,EVENT_NAME,OBSERVED_AT_UNIX_MS`, kept as its text;
    /// else the message of `evidence_spec`.
    EvidenceSource,
    /// An `i64` in decimal, kept as its text; else "invalid value for FLAG".
    Signed,
}

/// How the `--flag=value` form of a flag is read.
pub enum InlineForm {
    /// The command has no `--flag=value` form for this flag.
    Absent,
    /// The value is the argument with every leading `--flag=` removed.
    StripAll,
    /// The value is what follows the first `=`.
    AfterEquals,
}

/// One flag that a command accepts.
pub struct FlagRule {
    pub name: String,
    pub kind: ValueKind,
    pub inline: InlineForm,
}

pub struct RuleSpec {
    pub name: Seq<char>,
    pub kind: ValueKind,
    pub inline: InlineForm,
}

impl View for FlagRule {
    type V = RuleSpec;

    open spec fn view(&self) -> RuleSpec {
        RuleSpec { name: self.name@, kind: self.kind, inline: self.inline }
    }
}

/// A value accepted for a flag.
pub enum ArgValue {
    Text(String),
    Number(u64),
}

pub enum ArgValueSpec {
    Text(Seq<char>),
    Number(u64),
}

impl View for ArgValue {
    type V = ArgValueSpec;

    open spec fn view(&self) -> ArgValueSpec {
        match self {
            ArgValue::Text(s) => ArgValueSpec::Text(s@),
            ArgValue::Number(n) => ArgValueSpec::Number(*n),
        }
    }
}

/// A flag given a value, in the order of the arguments.
pub struct Assignment {
    pub flag: usize,
    pub value: ArgValue,
}

impl View for Assignment {
    type V = (nat, ArgValueSpec);

    open spec fn view(&self) -> (nat, ArgValueSpec) {
        (self.flag as nat, self.value@)
    }
}

pub open spec fn rules_view(rules: Seq<FlagRule>) -> Seq<RuleSpec> {
    Seq::new(rules.len(), |i: int| rules[i]@)
}

pub open spec fn texts_view(args: Seq<String>) -> Seq<Seq<char>> {
    Seq::new(args.len(), |i: int| args[i]@)
}

pub open spec fn assignments_view(a: Seq<Assignment>) -> Seq<(nat, ArgValueSpec)> {
    Seq::new(a.len(), |i: int| a[i]@)
}

/// "missing value for FLAG\nUSAGE"
pub open spec fn missing_message(flag: Seq<char>, usage: Seq<char>) -> Seq<char> {
    "missing value for "@ + flag + "\n"@ + usage
}

/// "invalid value for FLAG\nUSAGE"
pub open spec fn invalid_message(flag: Seq<char>, usage: Seq<char>) -> Seq<char> {
    "invalid value for "@ + flag + "\n"@ + usage
}

/// "FLAG must be non-empty\nUSAGE"
pub open spec fn empty_message(flag: Seq<char>, usage: Seq<char>) -> Seq<char> {
    flag + " must be non-empty\n"@ + usage
}

/// "unknown argument for COMMAND: ARG\nUSAGE"
pub open spec fn unknown_message(command: Seq<char>, arg: Seq<char>, usage: Seq<char>) -> Seq<char> {
    "unknown argument for "@ + command + ": "@ + arg + "\n"@ + usage
}

/// The value that a rule accepts for `raw`, or the message of its refusal;
/// `inline` tells whether `raw` came in the `--flag=value` form.
pub open spec fn check_value(rule: RuleSpec, raw: Seq<char>, inline: bool, usage: Seq<char>) -> Result<
    ArgValueSpec,
    Seq<char>,
> {
    match rule.kind {
        ValueKind::Text => Ok(ArgValueSpec::Text(raw)),
        ValueKind::Number => match parse_u64_spec(raw) {
            Some(n) => Ok(ArgValueSpec::Number(n)),
            None => Err(invalid_message(rule.name, usage)),
        },
        ValueKind::FilledOrInvalid => if is_blank(raw) {
            Err(invalid_message(rule.name, usage))
        } else {
            Ok(ArgValueSpec::Text(raw))
        },
        ValueKind::FilledOrEmpty => if is_blank(raw) {
            Err(empty_message(rule.name, usage))
        } else {
            Ok(ArgValueSpec::Text(raw))
        },
        ValueKind::FilledOrMissing => if !inline && is_blank(raw) {
            Err(missing_message(rule.name, usage))
        } else {
            Ok(ArgValueSpec::Text(raw))
        },
        ValueKind::Decimal => if float_syntax(raw) {
            Ok(ArgValueSpec::Text(raw))
        } else {
            Err(invalid_message(rule.name, usage))
        },
        ValueKind::EvidenceSource => match evidence_spec(raw, usage) {
            Ok(_) => Ok(ArgValueSpec::Text(raw)),
            Err(m) => Err(m),
        },
        ValueKind::Signed => match parse_i64_spec(raw) {
            Some(_) => Ok(ArgValueSpec::Text(raw)),
            None => Err(invalid_message(rule.name, usage)),
        },
    }
}

/// The index of the rule whose flag is exactly `arg`, if any.
pub open spec fn exact_rule(rules: Seq<RuleSpec>, arg: Seq<char>) -> Option<nat>
    decreases rules.len(),
{
    if rules.len() == 0 {
        None
    } else if rules[0].name == arg {
        Some(0)
    } else {
        match exact_rule(rules.drop_first(), arg) {
            Some(i) => Some(i + 1),
            None => None,
        }
    }
}

/// The index of the first rule with a `--flag=value` form that `arg`
/// begins with, if any.
pub open spec fn inline_rule(rules: Seq<RuleSpec>, arg: Seq<char>) -> Option<nat>
    decreases rules.len(),
{
    if rules.len() == 0 {
        None
    } else if rules[0].inline != InlineForm::Absent && starts_with(arg, rules[0].name + "="@) {
        Some(0)
    } else {
        match inline_rule(rules.drop_first(), arg) {
            Some(i) => Some(i + 1),
            None => None,
        }
    }
}

/// The value text of `arg` in the `--flag=value` form of `rule`.
pub open spec fn inline_text(rule: RuleSpec, arg: Seq<char>) -> Seq<char> {
    match rule.inline {
        InlineForm::AfterEquals => after_first(arg, '='),
        _ => strip_all(arg, rule.name + "="@),
    }
}

/// Reads the arguments from position `i` on, after `acc` was accepted:
/// a flag takes the next argument as its value, a `--flag=value`
/// argument carries it, and any other argument is refused. The first
/// refusal ends the reading.
pub open spec fn scan_from(
    rules: Seq<RuleSpec>,
    args: Seq<Seq<char>>,
    i: int,
    acc: Seq<(nat, ArgValueSpec)>,
    command: Seq<char>,
    usage: Seq<char>,
) -> Result<Seq<(nat, ArgValueSpec)>, Seq<char>>
    decreases args.len() - i,
{
    if i >= args.len() || i < 0 {
        Ok(acc)
    } else {
        let arg = args[i];
        match exact_rule(rules, arg) {
            Some(r) => if i + 1 >= args.len() {
                Err(missing_message(rules[r as int].name, usage))
            } else {
                match check_value(rules[r as int], args[i + 1], false, usage) {
                    Err(m) => Err(m),
                    Ok(v) => scan_from(rules, args, i + 2, acc.push((r, v)), command, usage),
                }
            },
            None => match inline_rule(rules, arg) {
                Some(r) => match check_value(rules[r as int], inline_text(rules[r as int], arg), true, usage) {
                    Err(m) => Err(m),
                    Ok(v) => scan_from(rules, args, i + 1, acc.push((r, v)), command, usage),
                },
                None => Err(unknown_message(command, arg, usage)),
            },
        }
    }
}

/// The flag values that the arguments give, in order, or the message of
/// the first refusal.
pub open spec fn scan(
    rules: Seq<RuleSpec>,
    args: Seq<Seq<char>>,
    command: Seq<char>,
    usage: Seq<char>,
) -> Result<Seq<(nat, ArgValueSpec)>, Seq<char>> {
    scan_from(rules, args, 0, Seq::empty(), command, usage)
}

/// The last value given to flag `f`, if any.
pub open spec fn last_value(a: Seq<(nat, ArgValueSpec)>, f: nat) -> Option<ArgValueSpec>
    decreases a.len(),
{
    if a.len() == 0 {
        None
    } else if a.last().0 == f {
        Some(a.last().1)
    } else {
        last_value(a.drop_last(), f)
    }
}

/// The last text given to flag `f`, if any.
pub open spec fn last_text(a: Seq<(nat, ArgValueSpec)>, f: nat) -> Option<Seq<char>> {
    match last_value(a, f) {
        Some(ArgValueSpec::Text(s)) => Some(s),
        _ => None,
    }
}

/// The last number given to flag `f`, if any.
pub open spec fn last_number(a: Seq<(nat, ArgValueSpec)>, f: nat) -> Option<u64> {
    match last_value(a, f) {
        Some(ArgValueSpec::Number(n)) => Some(n),
        _ => None,
    }
}

/// An optional text by its view.
pub open spec fn opt_view(o: Option<String>) -> Option<Seq<char>> {
    match o {
        Some(s) => Some(s@),
        None => None,
    }
}

/// Whether any argument asks for help (`--help` or `-h`).
pub open spec fn asks_help(args: Seq<Seq<char>>) -> bool {
    exists|i: int| 0 <= i < args.len() && (args[i] == "--help"@ || args[i] == "-h"@)
}

/// Whether any argument is `--help` or `-h`.
pub fn wants_help(args: &Vec<String>) -> (r: bool)
    ensures
        r == asks_help(texts_view(args@)),
{
    let mut i: usize = 0;
    while i < args.len()
        invariant
            i <= args.len(),
            forall|j: int| 0 <= j < i ==> !(args[j]@ == "--help"@ || args[j]@ == "-h"@),
        decreases args.len() - i,
    {
        if text_eq(args[i].as_str(), "--help") || text_eq(args[i].as_str(), "-h") {
            assert(texts_view(args@)[i as int] == args[i as int]@);
            return true;
        }
        i += 1;
    }
    assert forall|j: int| 0 <= j < args.len() implies !(texts_view(args@)[j] == "--help"@
        || texts_view(args@)[j] == "-h"@) by {
        assert(texts_view(args@)[j] == args[j]@);
    }
    false
}

fn check_value_exec(rule: &FlagRule, raw: &str, inline: bool, usage: &str) -> (r: Result<ArgValue, String>)
    ensures
        match r {
            Ok(v) => check_value(rule@, raw@, inline, usage@) == Ok::<ArgValueSpec, Seq<char>>(v@),
            Err(m) => check_value(rule@, raw@, inline, usage@) == Err::<ArgValueSpec, Seq<char>>(m@),
        },
{
    match rule.kind {
        ValueKind::Text => Ok(ArgValue::Text(String::from_str(raw))),
        ValueKind::Number => match parse_u64(raw) {
            Some(n) => Ok(ArgValue::Number(n)),
            None => Err(invalid_arg(rule.name.as_str(), usage)),
        },
        ValueKind::FilledOrInvalid => if blank(raw) {
            Err(invalid_arg(rule.name.as_str(), usage))
        } else {
            Ok(ArgValue::Text(String::from_str(raw)))
        },
        ValueKind::FilledOrEmpty => if blank(raw) {
            Err(must_be_non_empty(rule.name.as_str(), usage))
        } else {
            Ok(ArgValue::Text(String::from_str(raw)))
        },
        ValueKind::FilledOrMissing => if !inline && blank(raw) {
            Err(missing_arg(rule.name.as_str(), usage))
        } else {
            Ok(ArgValue::Text(String::from_str(raw)))
        },
        ValueKind::Decimal => if is_float_text(raw) {
            Ok(ArgValue::Text(String::from_str(raw)))
        } else {
            Err(invalid_arg(rule.name.as_str(), usage))
        },
        ValueKind::EvidenceSource => match parse_evidence_source(raw, usage) {
            Ok(_) => Ok(ArgValue::Text(String::from_str(raw))),
            Err(m) => Err(m),
        },
        ValueKind::Signed => match parse_i64(raw) {
            Some(_) => Ok(ArgValue::Text(String::from_str(raw))),
            None => Err(invalid_arg(rule.name.as_str(), usage)),
        },
    }
}

/// "missing value for FLAG\nUSAGE"
pub fn missing_arg(flag: &str, usage: &str) -> (r: String)
    ensures
        r@ == missing_message(flag@, usage@),
{
    let mut r = String::from_str("missing value for ");
    r.append(flag);
    r.append("\n");
    r.append(usage);
    r
}

/// "invalid value for FLAG\nUSAGE"
pub fn invalid_arg(flag: &str, usage: &str) -> (r: String)
    ensures
        r@ == invalid_message(flag@, usage@),
{
    let mut r = String::from_str("invalid value for ");
    r.append(flag);
    r.append("\n");
    r.append(usage);
    r
}

/// "FLAG must be non-empty\nUSAGE"
pub fn must_be_non_empty(flag: &str, usage: &str) -> (r: String)
    ensures
        r@ == empty_message(flag@, usage@),
{
    let mut r = String::from_str(flag);
    r.append(" must be non-empty\n");
    r.append(usage);
    r
}

pub fn message_unknown(command: &str, arg: &str, usage: &str) -> (r: String)
    ensures
        r@ == unknown_message(command@, arg@, usage@),
{
    let mut r = String::from_str("unknown argument for ");
    r.append(command);
    r.append(": ");
    r.append(arg);
    r.append("\n");
    r.append(usage);
    r
}

fn find_exact(rules: &Vec<FlagRule>, arg: &str) -> (r: Option<usize>)
    ensures
        match r {
            Some(i) => exact_rule(rules_view(rules@), arg@) == Some(i as nat) && i < rules.len(),
            None => exact_rule(rules_view(rules@), arg@) is None,
        },
{
    let ghost rs = rules_view(rules@);
    let mut i: usize = 0;
    while i < rules.len()
        invariant
            rs == rules_view(rules@),
            i <= rules.len(),
            forall|j: int| 0 <= j < i ==> rs[j].name != arg@,
        decreases rules.len() - i,
    {
        if text_eq(rules[i].name.as_str(), arg) {
            proof {
                lemma_exact_rule_at(rs, arg@, i as int);
            }
            return Some(i);
        }
        i += 1;
    }
    proof {
        lemma_exact_rule_none(rs, arg@);
    }
    None
}

proof fn lemma_exact_rule_at(rs: Seq<RuleSpec>, arg: Seq<char>, i: int)
    requires
        0 <= i < rs.len(),
        rs[i].name == arg,
        forall|j: int| 0 <= j < i ==> rs[j].name != arg,
    ensures
        exact_rule(rs, arg) == Some(i as nat),
    decreases i,
{
    if i > 0 {
        lemma_exact_rule_at(rs.drop_first(), arg, i - 1);
    }
}

proof fn lemma_exact_rule_none(rs: Seq<RuleSpec>, arg: Seq<char>)
    requires
        forall|j: int| 0 <= j < rs.len() ==> rs[j].name != arg,
    ensures
        exact_rule(rs, arg) is None,
    decreases rs.len(),
{
    if rs.len() > 0 {
        lemma_exact_rule_none(rs.drop_first(), arg);
    }
}

pub open spec fn inline_match(r: RuleSpec, arg: Seq<char>) -> bool {
    r.inline != InlineForm::Absent && starts_with(arg, r.name + "="@)
}

proof fn lemma_inline_rule_at(rs: Seq<RuleSpec>, arg: Seq<char>, i: int)
    requires
        0 <= i < rs.len(),
        inline_match(rs[i], arg),
        forall|j: int| 0 <= j < i ==> !inline_match(#[trigger] rs[j], arg),
    ensures
        inline_rule(rs, arg) == Some(i as nat),
    decreases i,
{
    if i > 0 {
        lemma_inline_rule_at(rs.drop_first(), arg, i - 1);
    }
}

proof fn lemma_inline_rule_none(rs: Seq<RuleSpec>, arg: Seq<char>)
    requires
        forall|j: int| 0 <= j < rs.len() ==> !inline_match(#[trigger] rs[j], arg),
    ensures
        inline_rule(rs, arg) is None,
    decreases rs.len(),
{
    if rs.len() > 0 {
        lemma_inline_rule_none(rs.drop_first(), arg);
    }
}

fn find_inline(rules: &Vec<FlagRule>, arg: &str) -> (r: Option<usize>)
    ensures
        match r {
            Some(i) => inline_rule(rules_view(rules@), arg@) == Some(i as nat) && i < rules.len(),
            None => inline_rule(rules_view(rules@), arg@) is None,
        },
{
    let ghost rs = rules_view(rules@);
    let mut i: usize = 0;
    while i < rules.len()
        invariant
            rs == rules_view(rules@),
            i <= rules.len(),
            forall|j: int| 0 <= j < i ==> !inline_match(#[trigger] rs[j], arg@),
        decreases rules.len() - i,
    {
        let absent = match rules[i].inline {
            InlineForm::Absent => true,
            _ => false,
        };
        if !absent {
            let prefix = cat(rules[i].name.as_str(), "=");
            if has_prefix(arg, prefix.as_str()) {
                proof {
                    lemma_inline_rule_at(rs, arg@, i as int);
                }
                return Some(i);
            }
        }
        i += 1;
    }
    proof {
        lemma_inline_rule_none(rs, arg@);
    }
    None
}

fn inline_text_exec(rule: &FlagRule, arg: &str) -> (r: String)
    ensures
        r@ == inline_text(rule@, arg@),
{
    match rule.inline {
        InlineForm::AfterEquals => after_equals(arg),
        _ => {
            let prefix = cat(rule.name.as_str(), "=");
            strip_prefixes(arg, prefix.as_str())
        },
    }
}

/// Reads the arguments against the rules: the flag values in order, or
/// the message of the first refusal.
pub fn scan_args(rules: &Vec<FlagRule>, args: &Vec<String>, command: &str, usage: &str) -> (r:
    Result<Vec<Assignment>, String>)
    ensures
        match r {
            Ok(a) => scan(rules_view(rules@), texts_view(args@), command@, usage@) == Ok::<
                Seq<(nat, ArgValueSpec)>,
                Seq<char>,
            >(assignments_view(a@)),
            Err(m) => scan(rules_view(rules@), texts_view(args@), command@, usage@) == Err::<
                Seq<(nat, ArgValueSpec)>,
                Seq<char>,
            >(m@),
        },
        match r {
            Ok(a) => forall|k: int| 0 <= k < a.len() ==> (#[trigger] a[k]).flag < rules.len(),
            Err(_) => true,
        },
{
    let ghost rs = rules_view(rules@);
    let ghost xs = texts_view(args@);
    let mut acc: Vec<Assignment> = Vec::new();
    let mut i: usize = 0;
    assert(assignments_view(acc@) =~= Seq::<(nat, ArgValueSpec)>::empty());
    while i < args.len()
        invariant
            rs == rules_view(rules@),
            xs == texts_view(args@),
            i <= args.len(),
            scan(rs, xs, command@, usage@) == scan_from(
                rs,
                xs,
                i as int,
                assignments_view(acc@),
                command@,
                usage@,
            ),
            forall|k: int| 0 <= k < acc.len() ==> (#[trigger] acc[k]).flag < rules.len(),
        decreases args.len() - i,
    {
        let arg = args[i].as_str();
        assert(xs[i as int] == arg@);
        match find_exact(rules, arg) {
            Some(f) => {
                let raw = match parse_value(args, i, rules[f].name.as_str(), usage) {
                    Ok(raw) => raw,
                    Err(m) => {
                        return Err(m);
                    },
                };
                assert(xs[i + 1] == args[i + 1]@);
                match check_value_exec(&rules[f], raw.as_str(), false, usage) {
                    Err(m) => {
                        return Err(m);
                    },
                    Ok(v) => {
                        let ghost before = assignments_view(acc@);
                        acc.push(Assignment { flag: f, value: v });
                        assert(assignments_view(acc@) =~= before.push((f as nat, v@)));
                        i = i + 2;
                    },
                }
            },
            None => match find_inline(rules, arg) {
                Some(f) => {
                    let raw = inline_text_exec(&rules[f], arg);
                    match check_value_exec(&rules[f], raw.as_str(), true, usage) {
                        Err(m) => {
                            return Err(m);
                        },
                        Ok(v) => {
                            let ghost before = assignments_view(acc@);
                            acc.push(Assignment { flag: f, value: v });
                            assert(assignments_view(acc@) =~= before.push((f as nat, v@)));
                            i = i + 1;
                        },
                    }
                },
                None => {
                    return Err(message_unknown(command, arg, usage));
                },
            },
        }
    }
    Ok(acc)
}

/// The last value given to flag `f`.
pub fn last_assigned(a: &Vec<Assignment>, f: usize) -> (r: Option<&ArgValue>)
    ensures
        match r {
            Some(v) => last_value(assignments_view(a@), f as nat) == Some(v@),
            None => last_value(assignments_view(a@), f as nat) is None,
        },
{
    let ghost av = assignments_view(a@);
    let mut i: usize = a.len();
    assert(av.take(i as int) =~= av);
    while i > 0
        invariant
            av == assignments_view(a@),
            i <= a.len(),
            last_value(av, f as nat) == last_value(av.take(i as int), f as nat),
        decreases i,
    {
        assert(av.take(i as int).drop_last() =~= av.take(i - 1));
        if a[i - 1].flag == f {
            return Some(&a[i - 1].value);
        }
        i -= 1;
    }
    None
}

/// Whether a text that a kind keeps reads as what the kind asks for.
pub open spec fn kind_accepts(kind: ValueKind, t: Seq<char>, usage: Seq<char>) -> bool {
    match kind {
        ValueKind::EvidenceSource => evidence_spec(t, usage) is Ok,
        ValueKind::Signed => parse_i64_spec(t) is Some,
        _ => true,
    }
}

/// Whether an accepted flag value names a rule, and, for an evidence
/// source or a signed number, is text that reads as one.
pub open spec fn evidence_ok(rules: Seq<RuleSpec>, usage: Seq<char>, x: (nat, ArgValueSpec)) -> bool {
    &&& x.0 < rules.len()
    &&& (rules[x.0 as int].kind == ValueKind::EvidenceSource || rules[x.0 as int].kind
        == ValueKind::Signed) ==> (x.1 matches ArgValueSpec::Text(t) && kind_accepts(
        rules[x.0 as int].kind,
        t,
        usage,
    ))
}

proof fn lemma_exact_rule_bound(rules: Seq<RuleSpec>, arg: Seq<char>)
    ensures
        exact_rule(rules, arg) matches Some(r) ==> r < rules.len() && rules[r as int].name == arg,
    decreases rules.len(),
{
    if rules.len() > 0 {
        lemma_exact_rule_bound(rules.drop_first(), arg);
    }
}

proof fn lemma_inline_rule_bound(rules: Seq<RuleSpec>, arg: Seq<char>)
    ensures
        inline_rule(rules, arg) matches Some(r) ==> r < rules.len(),
    decreases rules.len(),
{
    if rules.len() > 0 {
        lemma_inline_rule_bound(rules.drop_first(), arg);
    }
}

proof fn lemma_scan_from_evidence(
    rules: Seq<RuleSpec>,
    args: Seq<Seq<char>>,
    i: int,
    acc: Seq<(nat, ArgValueSpec)>,
    command: Seq<char>,
    usage: Seq<char>,
)
    requires
        forall|k: int| 0 <= k < acc.len() ==> evidence_ok(rules, usage, #[trigger] acc[k]),
    ensures
        scan_from(rules, args, i, acc, command, usage) matches Ok(a) ==> forall|k: int|
            0 <= k < a.len() ==> evidence_ok(rules, usage, #[trigger] a[k]),
    decreases args.len() - i,
{
    if i >= args.len() || i < 0 {
    } else {
        let arg = args[i];
        lemma_exact_rule_bound(rules, arg);
        lemma_inline_rule_bound(rules, arg);
        match exact_rule(rules, arg) {
            Some(r) => if i + 1 < args.len() {
                match check_value(rules[r as int], args[i + 1], false, usage) {
                    Err(m) => {},
                    Ok(v) => {
                        let acc2 = acc.push((r, v));
                        assert forall|k: int| 0 <= k < acc2.len() implies evidence_ok(
                            rules,
                            usage,
                            #[trigger] acc2[k],
                        ) by {
                            if k < acc.len() {
                                assert(acc2[k] == acc[k]);
                            }
                        }
                        lemma_scan_from_evidence(rules, args, i + 2, acc2, command, usage);
                    },
                }
            },
            None => match inline_rule(rules, arg) {
                Some(r) => match check_value(rules[r as int], inline_text(rules[r as int], arg), true, usage) {
                    Err(m) => {},
                    Ok(v) => {
                        let acc2 = acc.push((r, v));
                        assert forall|k: int| 0 <= k < acc2.len() implies evidence_ok(
                            rules,
                            usage,
                            #[trigger] acc2[k],
                        ) by {
                            if k < acc.len() {
                                assert(acc2[k] == acc[k]);
                            }
                        }
                        lemma_scan_from_evidence(rules, args, i + 1, acc2, command, usage);
                    },
                },
                None => {},
            },
        }
    }
}

proof fn lemma_texts_of_evidence(rules: Seq<RuleSpec>, usage: Seq<char>, a: Seq<(nat, ArgValueSpec)>, f: nat)
    requires
        f < rules.len(),
        rules[f as int].kind == ValueKind::EvidenceSource,
        forall|k: int| 0 <= k < a.len() ==> evidence_ok(rules, usage, #[trigger] a[k]),
    ensures
        forall|j: int| 0 <= j < texts_of(a, f).len() ==> evidence_spec(#[trigger] texts_of(a, f)[j], usage) is Ok,
    decreases a.len(),
{
    if a.len() > 0 {
        let d = a.drop_last();
        assert forall|k: int| 0 <= k < d.len() implies evidence_ok(rules, usage, #[trigger] d[k]) by {
            assert(d[k] == a[k]);
        }
        lemma_texts_of_evidence(rules, usage, d, f);
        assert(evidence_ok(rules, usage, a[a.len() - 1]));
    }
}

/// Every text that a successful reading gives to an evidence-source flag
/// reads as an evidence source.
pub proof fn lemma_scan_evidence_texts(
    rules: Seq<RuleSpec>,
    args: Seq<Seq<char>>,
    command: Seq<char>,
    usage: Seq<char>,
    f: nat,
)
    requires
        f < rules.len(),
        rules[f as int].kind == ValueKind::EvidenceSource,
    ensures
        scan(rules, args, command, usage) matches Ok(a) ==> forall|j: int|
            0 <= j < texts_of(a, f).len() ==> evidence_spec(#[trigger] texts_of(a, f)[j], usage) is Ok,
{
    lemma_scan_from_evidence(rules, args, 0, Seq::empty(), command, usage);
    match scan(rules, args, command, usage) {
        Ok(a) => {
            lemma_texts_of_evidence(rules, usage, a, f);
        },
        Err(_) => {},
    }
}

proof fn lemma_last_text_signed(rules: Seq<RuleSpec>, usage: Seq<char>, a: Seq<(nat, ArgValueSpec)>, f: nat)
    requires
        f < rules.len(),
        rules[f as int].kind == ValueKind::Signed,
        forall|k: int| 0 <= k < a.len() ==> evidence_ok(rules, usage, #[trigger] a[k]),
    ensures
        last_text(a, f) matches Some(t) ==> parse_i64_spec(t) is Some,
    decreases a.len(),
{
    if a.len() > 0 {
        if a.last().0 != f {
            let d = a.drop_last();
            assert forall|k: int| 0 <= k < d.len() implies evidence_ok(rules, usage, #[trigger] d[k]) by {
                assert(d[k] == a[k]);
            }
            lemma_last_text_signed(rules, usage, d, f);
        } else {
            assert(evidence_ok(rules, usage, a[a.len() - 1]));
        }
    }
}

/// The last text that a successful reading gives to a signed-number flag
/// reads as an `i64`.
pub proof fn lemma_scan_signed_text(
    rules: Seq<RuleSpec>,
    args: Seq<Seq<char>>,
    command: Seq<char>,
    usage: Seq<char>,
    f: nat,
)
    requires
        f < rules.len(),
        rules[f as int].kind == ValueKind::Signed,
    ensures
        scan(rules, args, command, usage) matches Ok(a) ==> (last_text(a, f) matches Some(t)
            ==> parse_i64_spec(t) is Some),
{
    lemma_scan_from_evidence(rules, args, 0, Seq::empty(), command, usage);
    match scan(rules, args, command, usage) {
        Ok(a) => {
            lemma_last_text_signed(rules, usage, a, f);
        },
        Err(_) => {},
    }
}

proof fn lemma_scan_shift(
    rules: Seq<RuleSpec>,
    p: Seq<Seq<char>>,
    rest: Seq<Seq<char>>,
    j: int,
    acc: Seq<(nat, ArgValueSpec)>,
    command: Seq<char>,
    usage: Seq<char>,
)
    requires
        0 <= j,
    ensures
        scan_from(rules, p + rest, p.len() + j, acc, command, usage) == scan_from(
            rules,
            rest,
            j,
            acc,
            command,
            usage,
        ),
    decreases rest.len() - j,
{
    let args = p + rest;
    let i = p.len() + j;
    if j >= rest.len() {
    } else {
        assert(args[i] == rest[j]);
        if j + 1 < rest.len() {
            assert(args[i + 1] == rest[j + 1]);
        }
        match exact_rule(rules, rest[j]) {
            Some(r) => if j + 1 < rest.len() {
                match check_value(rules[r as int], rest[j + 1], false, usage) {
                    Err(_) => {},
                    Ok(v) => {
                        lemma_scan_shift(rules, p, rest, j + 2, acc.push((r, v)), command, usage);
                    },
                }
            },
            None => match inline_rule(rules, rest[j]) {
                Some(r) => match check_value(rules[r as int], inline_text(rules[r as int], rest[j]), true, usage) {
                    Err(_) => {},
                    Ok(v) => {
                        lemma_scan_shift(rules, p, rest, j + 1, acc.push((r, v)), command, usage);
                    },
                },
                None => {},
            },
        }
    }
}

/// A flag reads the same whether its value follows it as the next
/// argument or comes joined to it as `FLAG=VALUE`, for a flag whose
/// joined form gives back the value and whose value is checked alike in
/// both forms.
pub proof fn law_flag_spellings(
    rules: Seq<RuleSpec>,
    r: nat,
    value: Seq<char>,
    rest: Seq<Seq<char>>,
    acc: Seq<(nat, ArgValueSpec)>,
    command: Seq<char>,
    usage: Seq<char>,
)
    requires
        exact_rule(rules, rules[r as int].name) == Some(r),
        exact_rule(rules, rules[r as int].name + "="@ + value) is None,
        inline_rule(rules, rules[r as int].name + "="@ + value) == Some(r),
        inline_text(rules[r as int], rules[r as int].name + "="@ + value) == value,
        rules[r as int].kind != ValueKind::FilledOrMissing,
    ensures
        scan_from(rules, seq![rules[r as int].name, value] + rest, 0, acc, command, usage) == scan_from(
            rules,
            seq![rules[r as int].name + "="@ + value] + rest,
            0,
            acc,
            command,
            usage,
        ),
{
    let name = rules[r as int].name;
    let joined = name + "="@ + value;
    let a1 = seq![name, value] + rest;
    let a2 = seq![joined] + rest;
    assert(a1[0] == name);
    assert(a1[1] == value);
    assert(a2[0] == joined);
    assert(check_value(rules[r as int], value, false, usage) == check_value(rules[r as int], value, true, usage));
    match check_value(rules[r as int], value, false, usage) {
        Err(_) => {},
        Ok(v) => {
            lemma_scan_shift(rules, seq![name, value], rest, 0, acc.push((r, v)), command, usage);
            lemma_scan_shift(rules, seq![joined], rest, 0, acc.push((r, v)), command, usage);
        },
    }
}

/// Every text given to flag `f`, in order.
pub open spec fn texts_of(a: Seq<(nat, ArgValueSpec)>, f: nat) -> Seq<Seq<char>>
    decreases a.len(),
{
    if a.len() == 0 {
        Seq::empty()
    } else {
        let rest = texts_of(a.drop_last(), f);
        match a.last() {
            (g, ArgValueSpec::Text(t)) => if g == f {
                rest.push(t)
            } else {
                rest
            },
            _ => rest,
        }
    }
}

/// Every text given to flag `f`, in order, copied.
pub fn all_texts_of(a: &Vec<Assignment>, f: usize) -> (r: Vec<String>)
    ensures
        texts_view(r@) == texts_of(assignments_view(a@), f as nat),
{
    let ghost av = assignments_view(a@);
    let mut r: Vec<String> = Vec::new();
    let mut i: usize = 0;
    assert(av.take(0) =~= Seq::<(nat, ArgValueSpec)>::empty());
    assert(texts_view(r@) =~= Seq::<Seq<char>>::empty());
    while i < a.len()
        invariant
            av == assignments_view(a@),
            i <= a.len(),
            texts_view(r@) == texts_of(av.take(i as int), f as nat),
        decreases a.len() - i,
    {
        assert(av.take(i + 1).drop_last() =~= av.take(i as int));
        assert(av.take(i + 1).last() == a[i as int]@);
        if a[i].flag == f {
            match &a[i].value {
                ArgValue::Text(t) => {
                    let ghost before = texts_view(r@);
                    r.push(t.clone());
                    assert(texts_view(r@) =~= before.push(t@));
                },
                _ => {},
            }
        }
        i += 1;
    }
    assert(av.take(a.len() as int) =~= av);
    r
}

/// The last text given to flag `f`, copied.
pub fn last_text_of(a: &Vec<Assignment>, f: usize) -> (r: Option<String>)
    ensures
        match r {
            Some(s) => last_text(assignments_view(a@), f as nat) == Some(s@),
            None => last_text(assignments_view(a@), f as nat) is None,
        },
{
    match last_assigned(a, f) {
        Some(ArgValue::Text(s)) => Some(s.clone()),
        _ => None,
    }
}

/// The last number given to flag `f`.
pub fn last_number_of(a: &Vec<Assignment>, f: usize) -> (r: Option<u64>)
    ensures
        r == last_number(assignments_view(a@), f as nat),
{
    match last_assigned(a, f) {
        Some(ArgValue::Number(n)) => Some(*n),
        _ => None,
    }
}

/// The argument after position `i`, the value of `flag`; else "missing
/// value for FLAG".
pub fn parse_value(args: &Vec<String>, i: usize, flag: &str, usage: &str) -> (r: Result<String, String>)
    ensures
        match r {
            Ok(v) => i + 1 < args.len() && v@ == args[i + 1]@,
            Err(m) => i + 1 >= args.len() && m@ == missing_message(flag@, usage@),
        },
{
    if i < args.len() && 1 < args.len() - i {
        Ok(args[i + 1].clone())
    } else {
        Err(missing_arg(flag, usage))
    }
}

/// The value when there is one; else "missing value for FLAG".
pub fn require_arg(value: Option<String>, flag: &str, usage: &str) -> (r: Result<String, String>)
    ensures
        match value {
            Some(v) => r matches Ok(s) && s@ == v@,
            None => r matches Err(m) && m@ == missing_message(flag@, usage@),
        },
{
    match value {
        Some(v) => Ok(v),
        None => Err(missing_arg(flag, usage)),
    }
}

/// The value with white space trimmed when that leaves text; else
/// "missing value for FLAG".
pub fn require_non_empty(value: Option<String>, flag: &str, usage: &str) -> (r: Result<String, String>)
    ensures
        match value {
            Some(v) => if is_blank(v@) {
                r matches Err(m) && m@ == missing_message(flag@, usage@)
            } else {
                r matches Ok(s) && s@ == trimmed(v@)
            },
            None => r matches Err(m) && m@ == missing_message(flag@, usage@),
        },
{
    match value {
        Some(v) => if blank(v.as_str()) {
            Err(missing_arg(flag, usage))
        } else {
            Ok(trim(v.as_str()))
        },
        None => Err(missing_arg(flag, usage)),
    }
}

/// The value when it is there and not blank; else "missing value for
/// FLAG" or "FLAG must be non-empty".
pub fn require_filled(value: Option<String>, flag: &str, usage: &str) -> (r: Result<String, String>)
    ensures
        match value {
            Some(v) => if is_blank(v@) {
                r matches Err(m) && m@ == empty_message(flag@, usage@)
            } else {
                r matches Ok(s) && s@ == v@
            },
            None => r matches Err(m) && m@ == missing_message(flag@, usage@),
        },
{
    match value {
        Some(v) => if blank(v.as_str()) {
            Err(must_be_non_empty(flag, usage))
        } else {
            Ok(v)
        },
        None => Err(missing_arg(flag, usage)),
    }
}

/// A rule built from its parts.
pub fn rule(name: &str, kind: ValueKind, inline: InlineForm) -> (r: FlagRule)
    ensures
        r@ == (RuleSpec { name: name@, kind, inline }),
{
    FlagRule { name: String::from_str(name), kind, inline }
}

} // verus!
