//! Rendering of an accepted event into the destination's text format: the
//! severity level, the resolved message, the span context (or a sentinel),
//! the target, the source location (or sentinels), then a fenced code block
//! holding the surviving fields as `key: value` lines. Markup escaping is
//! left to the destination collaborator, so rendering is plain
//! concatenation.

use vstd::prelude::*;
use vstd::string::StringExecFns;

use crate::fields::Field;
use crate::fields::FieldValue;
use crate::fields::contains_key;
use crate::fields::find_key;
use crate::fields::lemma_find_key;

verus! {

/// Severity of an event.
#[derive(Clone, Copy, PartialEq, Eq, Structural)]
pub enum Level {
    Trace,
    Debug,
    Info,
    Warn,
    Error,
}

/// The label a level renders as.
pub open spec fn level_label(l: Level) -> Seq<char> {
    match l {
        Level::Trace => "TRACE"@,
        Level::Debug => "DEBUG"@,
        Level::Info => "INFO"@,
        Level::Warn => "WARN"@,
        Level::Error => "ERROR"@,
    }
}

/// The label of a level.
pub fn level_text(l: Level) -> (r: &'static str)
    ensures
        r@ == level_label(l),
{
    match l {
        Level::Trace => "TRACE",
        Level::Debug => "DEBUG",
        Level::Info => "INFO",
        Level::Warn => "WARN",
        Level::Error => "ERROR",
    }
}

/// The decimal digit character for `d`.
pub open spec fn dec_digit(d: int) -> char {
    if d == 0 {
        '0'
    } else if d == 1 {
        '1'
    } else if d == 2 {
        '2'
    } else if d == 3 {
        '3'
    } else if d == 4 {
        '4'
    } else if d == 5 {
        '5'
    } else if d == 6 {
        '6'
    } else if d == 7 {
        '7'
    } else if d == 8 {
        '8'
    } else {
        '9'
    }
}

/// The decimal rendering of a natural number, without leading zeros.
pub open spec fn dec_nat(n: nat) -> Seq<char>
    decreases n,
{
    if n < 10 {
        seq![dec_digit(n as int)]
    } else {
        dec_nat(n / 10).push(dec_digit((n % 10) as int))
    }
}

/// The decimal rendering of an integer: a minus sign for a negative value,
/// then the digits of its magnitude.
pub open spec fn dec_int(n: int) -> Seq<char> {
    if n < 0 {
        seq!['-'] + dec_nat((-n) as nat)
    } else {
        dec_nat(n as nat)
    }
}

fn digit_str(d: u64) -> (r: &'static str)
    requires
        d < 10,
    ensures
        r@ == seq![dec_digit(d as int)],
{
    if d == 0 {
        proof {
            reveal_strlit("0");
            assert("0"@ =~= seq![dec_digit(0)]);
        }
        "0"
    } else if d == 1 {
        proof {
            reveal_strlit("1");
            assert("1"@ =~= seq![dec_digit(1)]);
        }
        "1"
    } else if d == 2 {
        proof {
            reveal_strlit("2");
            assert("2"@ =~= seq![dec_digit(2)]);
        }
        "2"
    } else if d == 3 {
        proof {
            reveal_strlit("3");
            assert("3"@ =~= seq![dec_digit(3)]);
        }
        "3"
    } else if d == 4 {
        proof {
            reveal_strlit("4");
            assert("4"@ =~= seq![dec_digit(4)]);
        }
        "4"
    } else if d == 5 {
        proof {
            reveal_strlit("5");
            assert("5"@ =~= seq![dec_digit(5)]);
        }
        "5"
    } else if d == 6 {
        proof {
            reveal_strlit("6");
            assert("6"@ =~= seq![dec_digit(6)]);
        }
        "6"
    } else if d == 7 {
        proof {
            reveal_strlit("7");
            assert("7"@ =~= seq![dec_digit(7)]);
        }
        "7"
    } else if d == 8 {
        proof {
            reveal_strlit("8");
            assert("8"@ =~= seq![dec_digit(8)]);
        }
        "8"
    } else {
        proof {
            reveal_strlit("9");
            assert("9"@ =~= seq![dec_digit(9)]);
        }
        "9"
    }
}

/// Render a natural number in decimal.
pub fn u64_to_dec(n: u64) -> (r: String)
    ensures
        r@ == dec_nat(n as nat),
    decreases n,
{
    if n < 10 {
        String::from_str(digit_str(n))
    } else {
        let mut s = u64_to_dec(n / 10);
        s.append(digit_str(n % 10));
        proof {
            assert(s@ =~= dec_nat((n / 10) as nat).push(dec_digit((n % 10) as int)));
        }
        s
    }
}

/// Render a signed integer in decimal.
pub fn i64_to_dec(n: i64) -> (r: String)
    ensures
        r@ == dec_int(n as int),
{
    if n >= 0 {
        u64_to_dec(n as u64)
    } else {
        let m: u64 = if n == i64::MIN {
            9223372036854775808u64
        } else {
            (-n) as u64
        };
        proof {
            assert(m as int == -(n as int));
        }
        let digits = u64_to_dec(m);
        let mut s = String::from_str("-");
        s.append(digits.as_str());
        proof {
            reveal_strlit("-");
            assert("-"@ =~= seq!['-']);
            assert(s@ =~= seq!['-'] + dec_nat((-(n as int)) as nat));
        }
        s
    }
}

/// The text a field value renders as: strings verbatim, integers in
/// decimal, `true` / `false` / `null` for the rest.
pub open spec fn value_label(v: FieldValue) -> Seq<char> {
    match v {
        FieldValue::Null => "null"@,
        FieldValue::Bool(b) => if b {
            "true"@
        } else {
            "false"@
        },
        FieldValue::Int(i) => dec_int(i as int),
        FieldValue::Str(s) => s@,
    }
}

/// Render one field value.
pub fn value_text(v: &FieldValue) -> (r: String)
    ensures
        r@ == value_label(*v),
{
    match v {
        FieldValue::Null => String::from_str("null"),
        FieldValue::Bool(b) => if *b {
            String::from_str("true")
        } else {
            String::from_str("false")
        },
        FieldValue::Int(i) => i64_to_dec(*i),
        FieldValue::Str(s) => s.clone(),
    }
}

/// The fields block: one `key: value` line per field, in order.
pub open spec fn fields_block(s: Seq<Field>) -> Seq<char>
    decreases s.len(),
{
    if s.len() == 0 {
        Seq::empty()
    } else {
        fields_block(s.drop_last()) + s.last().key@ + ": "@ + value_label(s.last().value) + "\n"@
    }
}

/// Render the fields block.
pub fn fields_text(fields: &Vec<Field>) -> (r: String)
    ensures
        r@ == fields_block(fields@),
{
    let mut buf = String::new();
    let n = fields.len();
    let mut i: usize = 0;
    proof {
        assert(buf@ =~= fields_block(fields@.subrange(0, 0)));
    }
    while i < n
        invariant
            n == fields@.len(),
            0 <= i <= n,
            buf@ == fields_block(fields@.subrange(0, i as int)),
        decreases n - i,
    {
        let f = &fields[i];
        let v = value_text(&f.value);
        buf.append(f.key.as_str());
        buf.append(": ");
        buf.append(v.as_str());
        buf.append("\n");
        proof {
            assert(fields@.subrange(0, i + 1).drop_last() =~= fields@.subrange(0, i as int));
            assert(fields@.subrange(0, i + 1).last() == fields@[i as int]);
            assert(buf@ =~= fields_block(fields@.subrange(0, i + 1)));
        }
        i = i + 1;
    }
    proof {
        assert(fields@.subrange(0, n as int) =~= fields@);
    }
    buf
}

/// The uppercase form of a string. Named for the result of
/// `str::to_uppercase`; a function of the characters alone.
pub uninterp spec fn upper_of(s: Seq<char>) -> Seq<char>;

/// Relies on `str::to_uppercase`: the Unicode uppercase mapping of the
/// string, a function of its characters alone.
#[verifier::external_body]
fn to_upper(s: &str) -> (r: String)
    ensures
        r@ == upper_of(s@),
{
    s.to_uppercase()
}

/// The moment of a span's life a context marker speaks of: its start, its
/// end, or an event observed inside it.
#[derive(Clone, Copy, PartialEq, Eq, Structural)]
pub enum SpanPhase {
    Start,
    End,
    Event,
}

/// The label a span phase renders as.
pub open spec fn phase_label(p: SpanPhase) -> Seq<char> {
    match p {
        SpanPhase::Start => "START"@,
        SpanPhase::End => "END"@,
        SpanPhase::Event => "EVENT"@,
    }
}

/// The span context marker: the uppercased span name and the phase,
/// bracketed, e.g. `[AN_INTERESTING_SPAN - START]`.
pub open spec fn span_context_label(name: Seq<char>, p: SpanPhase) -> Seq<char> {
    "["@ + upper_of(name) + " - "@ + phase_label(p) + "]"@
}

/// Ensure consistent formatting of the span context.
pub fn format_span_context(name: &str, p: SpanPhase) -> (r: String)
    ensures
        r@ == span_context_label(name@, p),
{
    let upper = to_upper(name);
    let mut s = String::from_str("[");
    s.append(upper.as_str());
    s.append(" - ");
    match p {
        SpanPhase::Start => s.append("START"),
        SpanPhase::End => s.append("END"),
        SpanPhase::Event => s.append("EVENT"),
    }
    s.append("]");
    proof {
        assert(s@ =~= span_context_label(name@, p));
    }
    s
}

/// What a field value holds when it is a string.
pub open spec fn str_value_of(v: FieldValue) -> Option<Seq<char>> {
    match v {
        FieldValue::Str(s) => Some(s@),
        _ => None,
    }
}

/// The message text an event resolves to: the string value of its
/// "message" field if it has one, else the string value of its "error"
/// field, else a fixed placeholder.
pub open spec fn resolved_message(fields: Seq<Field>) -> Seq<char> {
    let mi = find_key(fields, "message"@);
    if mi >= 0 && str_value_of(fields[mi].value) is Some {
        str_value_of(fields[mi].value)->Some_0
    } else {
        let ei = find_key(fields, "error"@);
        if ei >= 0 && str_value_of(fields[ei].value) is Some {
            str_value_of(fields[ei].value)->Some_0
        } else {
            "(no message)"@
        }
    }
}

/// The string value of the first field with key `key`, if both exist.
fn find_str_value(fields: &Vec<Field>, key: &String) -> (r: Option<String>)
    ensures
        ({
            let i = find_key(fields@, key@);
            match r {
                Some(s) => i >= 0 && str_value_of(fields@[i].value) == Some(s@),
                None => !(i >= 0 && str_value_of(fields@[i].value) is Some),
            }
        }),
{
    proof {
        lemma_find_key(fields@, key@);
    }
    let n = fields.len();
    let mut i: usize = 0;
    while i < n
        invariant
            n == fields@.len(),
            0 <= i <= n,
            forall|j: int| 0 <= j < i ==> (#[trigger] fields@[j]).key@ != key@,
        decreases n - i,
    {
        if fields[i].key == *key {
            proof {
                lemma_find_key(fields@, key@);
                assert(contains_key(fields@, key@));
                assert(find_key(fields@, key@) == i as int);
            }
            match &fields[i].value {
                FieldValue::Str(s) => {
                    return Some(s.clone());
                },
                _ => {
                    return None;
                },
            }
        }
        i = i + 1;
    }
    proof {
        if contains_key(fields@, key@) {
            assert(fields@[find_key(fields@, key@)].key@ == key@);
            assert(false);
        }
    }
    None
}

/// Resolve the message text of an event from its fields: the "message"
/// field's string value, else the "error" field's string value, else the
/// placeholder `(no message)`.
pub fn resolve_message(fields: &Vec<Field>) -> (r: String)
    ensures
        r@ == resolved_message(fields@),
{
    let message_key = String::from_str("message");
    match find_str_value(fields, &message_key) {
        Some(s) => s,
        None => {
            let error_key = String::from_str("error");
            match find_str_value(fields, &error_key) {
                Some(s) => s,
                None => String::from_str("(no message)"),
            }
        },
    }
}

/// The view of an optional string.
pub open spec fn opt_str_view(o: Option<String>) -> Option<Seq<char>> {
    match o {
        Some(s) => Some(s@),
        None => None,
    }
}

/// The span line's content: the span context marker for an event inside the
/// span, or the sentinel `-` when no span is active.
pub open spec fn span_part(span_name: Option<Seq<char>>) -> Seq<char> {
    match span_name {
        Some(n) => span_context_label(n, SpanPhase::Event),
        None => "-"@,
    }
}

/// The source line's content: the file (or the sentinel `-`), a colon, the
/// line number (or the sentinel `-`).
pub open spec fn source_part(file: Option<Seq<char>>, line: Option<u32>) -> Seq<char> {
    (match file {
        Some(f) => f,
        None => "-"@,
    }) + ":"@ + (match line {
        Some(l) => dec_nat(l as nat),
        None => "-"@,
    })
}

/// The full rendering of an accepted event: level and message, the span
/// context or its sentinel, the target, the source location or its
/// sentinels, then the fields block fenced as code.
pub open spec fn render_label(
    level: Level,
    msg: Seq<char>,
    span_name: Option<Seq<char>>,
    target: Seq<char>,
    file: Option<Seq<char>>,
    line: Option<u32>,
    fields: Seq<Field>,
) -> Seq<char> {
    level_label(level) + ": "@ + msg + "\n"@ + "span: "@ + span_part(span_name) + "\n"@
        + "target: "@ + target + "\n"@ + "source: "@ + source_part(file, line) + "\n"@ + "```\n"@
        + fields_block(fields) + "```"@
}

/// Render an accepted event.
pub fn render(
    level: Level,
    msg: &str,
    span_name: &Option<String>,
    target: &str,
    file: &Option<String>,
    line: &Option<u32>,
    fields: &Vec<Field>,
) -> (r: String)
    ensures
        r@ == render_label(
            level,
            msg@,
            opt_str_view(*span_name),
            target@,
            opt_str_view(*file),
            *line,
            fields@,
        ),
{
    let mut buf = String::from_str(level_text(level));
    buf.append(": ");
    buf.append(msg);
    buf.append("\n");
    buf.append("span: ");
    match span_name {
        Some(n) => {
            let ctx = format_span_context(n.as_str(), SpanPhase::Event);
            buf.append(ctx.as_str());
        },
        None => {
            buf.append("-");
        },
    }
    buf.append("\n");
    buf.append("target: ");
    buf.append(target);
    buf.append("\n");
    buf.append("source: ");
    match file {
        Some(f) => {
            buf.append(f.as_str());
        },
        None => {
            buf.append("-");
        },
    }
    buf.append(":");
    match line {
        Some(l) => {
            let digits = u64_to_dec(*l as u64);
            buf.append(digits.as_str());
        },
        None => {
            buf.append("-");
        },
    }
    buf.append("\n");
    buf.append("```\n");
    let block = fields_text(fields);
    buf.append(block.as_str());
    buf.append("```");
    proof {
        assert(buf@ =~= render_label(
            level,
            msg@,
            opt_str_view(*span_name),
            target@,
            opt_str_view(*file),
            *line,
            fields@,
        ));
    }
    buf
}

} // verus!
