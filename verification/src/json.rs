//! The wire text codec: emission and parsing of the JSON fragment the
//! envelope format uses — objects with string keys whose values are
//! strings, unsigned integers, or one level of nested object.
//!
//! Emission is specified character by character; parsing is specified by
//! recursive functions over character sequences, and the executable
//! parser returns exactly what the specification functions say.

use vstd::prelude::*;
use vstd::string::StrSliceExecFns;

verus! {

// ---------------------------------------------------------------------------
// Characters
// ---------------------------------------------------------------------------

/// Whitespace the parser skips between tokens.
pub open spec fn is_ws_char(c: char) -> bool {
    c == ' ' || c == '\t' || c == '\n' || c == '\r'
}

/// A decimal digit.
pub open spec fn is_digit_char(c: char) -> bool {
    digit_val(c) >= 0
}

/// The value of a decimal digit, or `-1`.
pub open spec fn digit_val(c: char) -> int {
    if c == '0' {
        0
    } else if c == '1' {
        1
    } else if c == '2' {
        2
    } else if c == '3' {
        3
    } else if c == '4' {
        4
    } else if c == '5' {
        5
    } else if c == '6' {
        6
    } else if c == '7' {
        7
    } else if c == '8' {
        8
    } else if c == '9' {
        9
    } else {
        -1
    }
}

/// The character of a decimal digit value.
pub open spec fn digit_char(d: int) -> char {
    if d == 0 {
        '0'
    } else if d == 1 {
        '1'
    } else if d == 2 {
        '2'
    } else if d == 3 {
        '3'
    } else if d == 4 {
        '4'
    } else if d == 5 {
        '5'
    } else if d == 6 {
        '6'
    } else if d == 7 {
        '7'
    } else if d == 8 {
        '8'
    } else {
        '9'
    }
}

/// The value of a hexadecimal digit (either case), or `-1`.
pub open spec fn hex_val(c: char) -> int {
    if digit_val(c) >= 0 {
        digit_val(c)
    } else if c == 'a' || c == 'A' {
        10
    } else if c == 'b' || c == 'B' {
        11
    } else if c == 'c' || c == 'C' {
        12
    } else if c == 'd' || c == 'D' {
        13
    } else if c == 'e' || c == 'E' {
        14
    } else if c == 'f' || c == 'F' {
        15
    } else {
        -1
    }
}

/// The lower-case character of a hexadecimal digit value.
pub open spec fn hex_digit_char(d: int) -> char {
    if d < 10 {
        digit_char(d)
    } else if d == 10 {
        'a'
    } else if d == 11 {
        'b'
    } else if d == 12 {
        'c'
    } else if d == 13 {
        'd'
    } else if d == 14 {
        'e'
    } else {
        'f'
    }
}

/// A number a `char` can carry: not a surrogate, and in range.
pub open spec fn valid_scalar_u32(v: u32) -> bool {
    v < 0xD800 || (0xE000 <= v && v <= 0x10FFFF)
}

// ---------------------------------------------------------------------------
// Escaping and emission
// ---------------------------------------------------------------------------

/// How one character appears inside a JSON string: quote and backslash get
/// a backslash escape, control characters a four-digit escape, anything
/// else stands as itself.
pub open spec fn escape_char(c: char) -> Seq<char> {
    if c == '"' {
        seq!['\\', '"']
    } else if c == '\\' {
        seq!['\\', '\\']
    } else if (c as u32) < 32 {
        seq![
            '\\',
            'u',
            '0',
            '0',
            hex_digit_char((c as u32) as int / 16),
            hex_digit_char((c as u32) as int % 16),
        ]
    } else {
        seq![c]
    }
}

/// A character sequence escaped for a JSON string body.
pub open spec fn escape_string(s: Seq<char>) -> Seq<char>
    decreases s.len(),
{
    if s.len() == 0 {
        Seq::empty()
    } else {
        escape_char(s[0]) + escape_string(s.drop_first())
    }
}

/// A JSON string: a quote, the escaped body, a quote.
pub open spec fn quoted(s: Seq<char>) -> Seq<char> {
    seq!['"'] + escape_string(s) + seq!['"']
}

/// The three decimal digits of a status code.
pub open spec fn dec3(n: int) -> Seq<char> {
    seq![digit_char(n / 100 % 10), digit_char(n / 10 % 10), digit_char(n % 10)]
}

/// Escaping distributes over appending one character.
pub proof fn lemma_escape_push(s: Seq<char>, c: char)
    ensures
        escape_string(s.push(c)) == escape_string(s) + escape_char(c),
    decreases s.len(),
{
    if s.len() == 0 {
        assert(s.push(c)[0] == c);
        assert(s.push(c).drop_first() =~= Seq::<char>::empty());
        assert(escape_string(s.push(c)) == escape_char(c) + escape_string(
            s.push(c).drop_first(),
        ));
        assert(escape_string(Seq::<char>::empty()) == Seq::<char>::empty());
        assert(escape_string(s.push(c)) =~= escape_string(s) + escape_char(c));
    } else {
        assert(s.push(c)[0] == s[0]);
        assert(s.push(c).drop_first() =~= s.drop_first().push(c));
        lemma_escape_push(s.drop_first(), c);
        assert(escape_string(s.push(c)) =~= escape_string(s) + escape_char(c));
    }
}

/// Relies on `String::push`: appends exactly the given character to the
/// end of the string.
#[verifier::external_body]
pub(crate) fn push_char(out: &mut String, c: char)
    ensures
        final(out)@ == old(out)@ + seq![c],
{
    out.push(c);
}

/// The lower-case character of a hexadecimal digit value.
fn hex_digit_char_exec(d: u32) -> (r: char)
    requires
        d < 16,
    ensures
        r == hex_digit_char(d as int),
{
    if d == 0 {
        '0'
    } else if d == 1 {
        '1'
    } else if d == 2 {
        '2'
    } else if d == 3 {
        '3'
    } else if d == 4 {
        '4'
    } else if d == 5 {
        '5'
    } else if d == 6 {
        '6'
    } else if d == 7 {
        '7'
    } else if d == 8 {
        '8'
    } else if d == 9 {
        '9'
    } else if d == 10 {
        'a'
    } else if d == 11 {
        'b'
    } else if d == 12 {
        'c'
    } else if d == 13 {
        'd'
    } else if d == 14 {
        'e'
    } else {
        'f'
    }
}

/// Appends the JSON string form of `s`: a quote, each character escaped,
/// a quote.
pub(crate) fn append_quoted(out: &mut String, s: &str)
    ensures
        final(out)@ == old(out)@ + quoted(s@),
{
    push_char(out, '"');
    let n = s.unicode_len();
    let mut i: usize = 0;
    while i < n
        invariant
            n == s@.len(),
            0 <= i <= n,
            out@ == old(out)@ + seq!['"'] + escape_string(s@.take(i as int)),
        decreases n - i,
    {
        let c = s.get_char(i);
        proof {
            lemma_escape_push(s@.take(i as int), c);
            assert(s@.take(i as int + 1) =~= s@.take(i as int).push(c));
        }
        if c == '"' {
            push_char(out, '\\');
            push_char(out, '"');
            assert(out@ =~= old(out)@ + seq!['"'] + escape_string(s@.take(i as int + 1)));
        } else if c == '\\' {
            push_char(out, '\\');
            push_char(out, '\\');
            assert(out@ =~= old(out)@ + seq!['"'] + escape_string(s@.take(i as int + 1)));
        } else {
            let v = c as u32;
            if v < 32 {
                push_char(out, '\\');
                push_char(out, 'u');
                push_char(out, '0');
                push_char(out, '0');
                push_char(out, hex_digit_char_exec(v / 16));
                push_char(out, hex_digit_char_exec(v % 16));
                assert(out@ =~= old(out)@ + seq!['"'] + escape_string(s@.take(i as int + 1)));
            } else {
                push_char(out, c);
                assert(out@ =~= old(out)@ + seq!['"'] + escape_string(s@.take(i as int + 1)));
            }
        }
        i = i + 1;
    }
    proof {
        assert(s@.take(n as int) =~= s@);
    }
    push_char(out, '"');
    assert(final(out)@ =~= old(out)@ + quoted(s@));
}

/// Appends the three decimal digits of a status code.
pub(crate) fn append_status_code(out: &mut String, code: u16)
    requires
        100 <= code <= 999,
    ensures
        final(out)@ == old(out)@ + dec3(code as int),
{
    let d2 = ((code / 100) % 10) as u32;
    let d1 = ((code / 10) % 10) as u32;
    let d0 = (code % 10) as u32;
    push_char(out, hex_digit_char_exec(d2));
    push_char(out, hex_digit_char_exec(d1));
    push_char(out, hex_digit_char_exec(d0));
    assert(final(out)@ =~= old(out)@ + dec3(code as int));
}

// ---------------------------------------------------------------------------
// Parsed values
// ---------------------------------------------------------------------------

/// Specification-level scalar of the wire fragment.
pub enum ScalarV {
    S(Seq<char>),
    N(nat),
}

/// Specification-level value at the top level of an envelope object.
pub enum TopValV {
    Scalar(ScalarV),
    Obj(Seq<(Seq<char>, ScalarV)>),
}

/// A scalar of the wire fragment: a string or an unsigned integer.
#[derive(Debug)]
pub enum Scalar {
    Str(String),
    Num(u64),
}

impl View for Scalar {
    type V = ScalarV;

    open spec fn view(&self) -> ScalarV {
        match self {
            Scalar::Str(s) => ScalarV::S(s@),
            Scalar::Num(n) => ScalarV::N(*n as nat),
        }
    }
}

/// One member of a flat object: a key and a scalar value.
#[derive(Debug)]
pub struct JsonField {
    pub key: String,
    pub value: Scalar,
}

impl View for JsonField {
    type V = (Seq<char>, ScalarV);

    open spec fn view(&self) -> (Seq<char>, ScalarV) {
        (self.key@, self.value@)
    }
}

/// A value at the top level of an envelope object: a scalar or a flat
/// object.
#[derive(Debug)]
pub enum TopVal {
    Scalar(Scalar),
    Obj(Vec<JsonField>),
}

impl View for TopVal {
    type V = TopValV;

    open spec fn view(&self) -> TopValV {
        match self {
            TopVal::Scalar(s) => TopValV::Scalar(s@),
            TopVal::Obj(fs) => TopValV::Obj(fields_view(fs@)),
        }
    }
}

/// One member at the top level of an envelope object.
#[derive(Debug)]
pub struct TopField {
    pub key: String,
    pub value: TopVal,
}

impl View for TopField {
    type V = (Seq<char>, TopValV);

    open spec fn view(&self) -> (Seq<char>, TopValV) {
        (self.key@, self.value@)
    }
}

/// The views of a parsed member list.
pub open spec fn fields_view(fs: Seq<JsonField>) -> Seq<(Seq<char>, ScalarV)> {
    fs.map_values(|f: JsonField| f@)
}

/// The views of a parsed top-level member list.
pub open spec fn top_fields_view(fs: Seq<TopField>) -> Seq<(Seq<char>, TopValV)> {
    fs.map_values(|f: TopField| f@)
}

// ---------------------------------------------------------------------------
// The parser, as specification functions over the remaining text
// ---------------------------------------------------------------------------

/// The text after leading whitespace.
pub open spec fn spec_ws(s: Seq<char>) -> Seq<char>
    decreases s.len(),
{
    if s.len() > 0 && is_ws_char(s[0]) {
        spec_ws(s.drop_first())
    } else {
        s
    }
}

/// What a single-character escape stands for.
pub open spec fn unescape_char(e: char) -> Option<char> {
    if e == '"' {
        Some('"')
    } else if e == '\\' {
        Some('\\')
    } else if e == '/' {
        Some('/')
    } else if e == 'b' {
        Some('\u{0008}')
    } else if e == 'f' {
        Some('\u{000c}')
    } else if e == 'n' {
        Some('\n')
    } else if e == 'r' {
        Some('\r')
    } else if e == 't' {
        Some('\t')
    } else {
        None
    }
}

/// The number of four hexadecimal digits, or `-1`.
pub open spec fn hex4_val(a: char, b: char, c: char, d: char) -> int {
    if hex_val(a) >= 0 && hex_val(b) >= 0 && hex_val(c) >= 0 && hex_val(d) >= 0 {
        hex_val(a) * 4096 + hex_val(b) * 256 + hex_val(c) * 16 + hex_val(d)
    } else {
        -1
    }
}

/// Parses a string body after its opening quote: the decoded characters
/// and the text after the closing quote, or `None` on malformed input.
pub open spec fn spec_parse_str_body(s: Seq<char>) -> Option<(Seq<char>, Seq<char>)>
    decreases s.len(),
{
    if s.len() == 0 {
        None
    } else if s[0] == '"' {
        Some((Seq::empty(), s.drop_first()))
    } else if s[0] == '\\' {
        if s.len() < 2 {
            None
        } else if s[1] == 'u' {
            if s.len() < 6 {
                None
            } else {
                let h = hex4_val(s[2], s[3], s[4], s[5]);
                if h < 0 || !valid_scalar_u32(h as u32) {
                    None
                } else {
                    match spec_parse_str_body(s.skip(6)) {
                        None => None,
                        Some((x, rem)) => Some((seq![(h as u32) as char] + x, rem)),
                    }
                }
            }
        } else {
            match unescape_char(s[1]) {
                None => None,
                Some(c) => match spec_parse_str_body(s.skip(2)) {
                    None => None,
                    Some((x, rem)) => Some((seq![c] + x, rem)),
                },
            }
        }
    } else {
        match spec_parse_str_body(s.drop_first()) {
            None => None,
            Some((x, rem)) => Some((seq![s[0]] + x, rem)),
        }
    }
}

/// Parses a quoted string from its opening quote.
pub open spec fn spec_parse_string(s: Seq<char>) -> Option<(Seq<char>, Seq<char>)> {
    if s.len() > 0 && s[0] == '"' {
        spec_parse_str_body(s.drop_first())
    } else {
        None
    }
}

/// Accumulates decimal digits; fails on numbers that do not fit a
/// machine word.
pub open spec fn spec_parse_num_loop(s: Seq<char>, acc: nat) -> Option<(nat, Seq<char>)>
    decreases s.len(),
{
    if s.len() > 0 && is_digit_char(s[0]) {
        let acc2 = acc * 10 + digit_val(s[0]);
        if acc2 > 0xFFFF_FFFF_FFFF_FFFF {
            None
        } else {
            spec_parse_num_loop(s.drop_first(), acc2 as nat)
        }
    } else {
        Some((acc, s))
    }
}

/// Parses an unsigned integer: at least one digit.
pub open spec fn spec_parse_number(s: Seq<char>) -> Option<(nat, Seq<char>)> {
    if s.len() > 0 && is_digit_char(s[0]) {
        spec_parse_num_loop(s, 0)
    } else {
        None
    }
}

/// Parses a scalar at the head of the text: a string or a number.
pub open spec fn spec_parse_scalar(s: Seq<char>) -> Option<(ScalarV, Seq<char>)> {
    if s.len() == 0 {
        None
    } else if s[0] == '"' {
        match spec_parse_str_body(s.drop_first()) {
            None => None,
            Some((x, rem)) => Some((ScalarV::S(x), rem)),
        }
    } else if is_digit_char(s[0]) {
        match spec_parse_number(s) {
            None => None,
            Some((n, rem)) => Some((ScalarV::N(n), rem)),
        }
    } else {
        None
    }
}

/// Whitespace skipping never lengthens the text.
pub proof fn lemma_ws_len(s: Seq<char>)
    ensures
        spec_ws(s).len() <= s.len(),
    decreases s.len(),
{
    if s.len() > 0 && is_ws_char(s[0]) {
        lemma_ws_len(s.drop_first());
    }
}

/// A parsed string body consumes at least its closing quote.
pub proof fn lemma_str_body_consumes(s: Seq<char>)
    ensures
        spec_parse_str_body(s) matches Some((x, rem)) ==> rem.len() < s.len(),
    decreases s.len(),
{
    if s.len() == 0 {
    } else if s[0] == '"' {
    } else if s[0] == '\\' {
        if s.len() >= 6 && s[1] == 'u' {
            lemma_str_body_consumes(s.skip(6));
        }
        if s.len() >= 2 {
            lemma_str_body_consumes(s.skip(2));
        }
    } else {
        lemma_str_body_consumes(s.drop_first());
    }
}

/// Digit accumulation never lengthens the text.
pub proof fn lemma_num_loop_consumes(s: Seq<char>, acc: nat)
    ensures
        spec_parse_num_loop(s, acc) matches Some((n, rem)) ==> rem.len() <= s.len(),
    decreases s.len(),
{
    if s.len() > 0 && is_digit_char(s[0]) {
        let acc2 = acc * 10 + digit_val(s[0]);
        if acc2 <= 0xFFFF_FFFF_FFFF_FFFF {
            lemma_num_loop_consumes(s.drop_first(), acc2 as nat);
        }
    }
}

/// A parsed scalar consumes at least one character.
pub proof fn lemma_scalar_consumes(s: Seq<char>)
    ensures
        spec_parse_scalar(s) matches Some((v, rem)) ==> rem.len() < s.len(),
{
    if s.len() > 0 && s[0] == '"' {
        lemma_str_body_consumes(s.drop_first());
    } else if s.len() > 0 && is_digit_char(s[0]) {
        lemma_num_loop_consumes(s.drop_first(), digit_val(s[0]) as nat);
    }
}

/// Parses object members from the first key on, consuming the closing
/// brace.
pub open spec fn spec_parse_members(s: Seq<char>) -> Option<
    (Seq<(Seq<char>, ScalarV)>, Seq<char>),
>
    decreases s.len(),
{
    let t = spec_ws(s);
    if t.len() == 0 || t[0] != '"' {
        None
    } else {
        match spec_parse_str_body(t.drop_first()) {
            None => None,
            Some((key, r1)) => {
                let u = spec_ws(r1);
                if u.len() == 0 || u[0] != ':' {
                    None
                } else {
                    let v = spec_ws(u.drop_first());
                    match spec_parse_scalar(v) {
                        None => None,
                        Some((val, r2)) => {
                            let w = spec_ws(r2);
                            if w.len() == 0 {
                                None
                            } else if w[0] == ',' {
                                proof {
                                    lemma_ws_len(s);
                                    lemma_str_body_consumes(t.drop_first());
                                    lemma_ws_len(r1);
                                    lemma_ws_len(u.drop_first());
                                    lemma_scalar_consumes(v);
                                    lemma_ws_len(r2);
                                }
                                match spec_parse_members(w.drop_first()) {
                                    None => None,
                                    Some((rest, r3)) => Some((seq![(key, val)] + rest, r3)),
                                }
                            } else if w[0] == '}' {
                                Some((seq![(key, val)], w.drop_first()))
                            } else {
                                None
                            }
                        },
                    }
                }
            },
        }
    }
}

/// Parses a flat object body after its opening brace: its members and the
/// text after the closing brace.
pub open spec fn spec_parse_flat_body(s: Seq<char>) -> Option<
    (Seq<(Seq<char>, ScalarV)>, Seq<char>),
> {
    let t = spec_ws(s);
    if t.len() > 0 && t[0] == '}' {
        Some((Seq::empty(), t.drop_first()))
    } else {
        spec_parse_members(s)
    }
}

/// Parses a flat object from its opening brace, leading whitespace
/// allowed.
pub open spec fn spec_parse_flat_obj(s: Seq<char>) -> Option<
    (Seq<(Seq<char>, ScalarV)>, Seq<char>),
> {
    let t = spec_ws(s);
    if t.len() > 0 && t[0] == '{' {
        spec_parse_flat_body(t.drop_first())
    } else {
        None
    }
}

/// Parsed members consume at least the closing brace.
pub proof fn lemma_members_consumes(s: Seq<char>)
    ensures
        spec_parse_members(s) matches Some((fs, rem)) ==> rem.len() < s.len(),
    decreases s.len(),
{
    let t = spec_ws(s);
    lemma_ws_len(s);
    if t.len() == 0 || t[0] != '"' {
    } else {
        match spec_parse_str_body(t.drop_first()) {
            None => {},
            Some((key, r1)) => {
                lemma_str_body_consumes(t.drop_first());
                let u = spec_ws(r1);
                lemma_ws_len(r1);
                if u.len() == 0 || u[0] != ':' {
                } else {
                    let v = spec_ws(u.drop_first());
                    lemma_ws_len(u.drop_first());
                    match spec_parse_scalar(v) {
                        None => {},
                        Some((val, r2)) => {
                            lemma_scalar_consumes(v);
                            let w = spec_ws(r2);
                            lemma_ws_len(r2);
                            if w.len() == 0 {
                            } else if w[0] == ',' {
                                lemma_members_consumes(w.drop_first());
                            }
                        },
                    }
                }
            },
        }
    }
}

/// A parsed flat body consumes at least the closing brace.
pub proof fn lemma_flat_body_consumes(s: Seq<char>)
    ensures
        spec_parse_flat_body(s) matches Some((fs, rem)) ==> rem.len() < s.len(),
{
    lemma_ws_len(s);
    lemma_members_consumes(s);
}

/// Parses a value at the top level of the envelope object: a flat object
/// or a scalar.
pub open spec fn spec_parse_top_value(s: Seq<char>) -> Option<(TopValV, Seq<char>)> {
    if s.len() > 0 && s[0] == '{' {
        match spec_parse_flat_body(s.drop_first()) {
            None => None,
            Some((fs, rem)) => Some((TopValV::Obj(fs), rem)),
        }
    } else {
        match spec_parse_scalar(s) {
            None => None,
            Some((v, rem)) => Some((TopValV::Scalar(v), rem)),
        }
    }
}

/// A parsed top-level value consumes at least one character.
pub proof fn lemma_top_value_consumes(s: Seq<char>)
    ensures
        spec_parse_top_value(s) matches Some((v, rem)) ==> rem.len() < s.len(),
{
    if s.len() > 0 && s[0] == '{' {
        lemma_flat_body_consumes(s.drop_first());
    } else {
        lemma_scalar_consumes(s);
    }
}

/// Parses top-level members from the first key on, consuming the closing
/// brace.
pub open spec fn spec_parse_top_members(s: Seq<char>) -> Option<
    (Seq<(Seq<char>, TopValV)>, Seq<char>),
>
    decreases s.len(),
{
    let t = spec_ws(s);
    if t.len() == 0 || t[0] != '"' {
        None
    } else {
        match spec_parse_str_body(t.drop_first()) {
            None => None,
            Some((key, r1)) => {
                let u = spec_ws(r1);
                if u.len() == 0 || u[0] != ':' {
                    None
                } else {
                    let v = spec_ws(u.drop_first());
                    match spec_parse_top_value(v) {
                        None => None,
                        Some((val, r2)) => {
                            let w = spec_ws(r2);
                            if w.len() == 0 {
                                None
                            } else if w[0] == ',' {
                                proof {
                                    lemma_ws_len(s);
                                    lemma_str_body_consumes(t.drop_first());
                                    lemma_ws_len(r1);
                                    lemma_ws_len(u.drop_first());
                                    lemma_top_value_consumes(v);
                                    lemma_ws_len(r2);
                                }
                                match spec_parse_top_members(w.drop_first()) {
                                    None => None,
                                    Some((rest, r3)) => Some((seq![(key, val)] + rest, r3)),
                                }
                            } else if w[0] == '}' {
                                Some((seq![(key, val)], w.drop_first()))
                            } else {
                                None
                            }
                        },
                    }
                }
            },
        }
    }
}

/// Parses the envelope object: leading whitespace, a brace, members, the
/// closing brace.
pub open spec fn spec_parse_top_obj(s: Seq<char>) -> Option<
    (Seq<(Seq<char>, TopValV)>, Seq<char>),
> {
    let t = spec_ws(s);
    if t.len() > 0 && t[0] == '{' {
        let u = spec_ws(t.drop_first());
        if u.len() > 0 && u[0] == '}' {
            Some((Seq::empty(), u.drop_first()))
        } else {
            spec_parse_top_members(t.drop_first())
        }
    } else {
        None
    }
}

/// A whole text that is one flat object and nothing more.
pub open spec fn spec_parse_flat_text(s: Seq<char>) -> Option<Seq<(Seq<char>, ScalarV)>> {
    match spec_parse_flat_obj(s) {
        None => None,
        Some((fs, rem)) => if spec_ws(rem).len() == 0 {
            Some(fs)
        } else {
            None
        },
    }
}

/// A whole text that is one envelope object and nothing more.
pub open spec fn spec_parse_top_text(s: Seq<char>) -> Option<Seq<(Seq<char>, TopValV)>> {
    match spec_parse_top_obj(s) {
        None => None,
        Some((fs, rem)) => if spec_ws(rem).len() == 0 {
            Some(fs)
        } else {
            None
        },
    }
}

// ---------------------------------------------------------------------------
// The executable parser
// ---------------------------------------------------------------------------

/// The characters of a text, one by one.
fn str_to_chars(s: &str) -> (v: Vec<char>)
    ensures
        v@ == s@,
{
    let n = s.unicode_len();
    let mut v: Vec<char> = Vec::new();
    let mut i: usize = 0;
    while i < n
        invariant
            n == s@.len(),
            0 <= i <= n,
            v@ == s@.take(i as int),
        decreases n - i,
    {
        let c = s.get_char(i);
        v.push(c);
        proof {
            assert(s@.take(i as int + 1) =~= s@.take(i as int).push(c));
        }
        i = i + 1;
    }
    proof {
        assert(s@.take(n as int) =~= s@);
    }
    v
}

/// Relies on `char::from_u32`: `Some` exactly for numbers that are
/// Unicode scalar values (not a surrogate, not beyond the last code
/// point), converting the number to its character.
#[verifier::external_body]
fn char_from_u32(v: u32) -> (r: Option<char>)
    ensures
        r == (if valid_scalar_u32(v) {
            Some(v as char)
        } else {
            None::<char>
        }),
{
    char::from_u32(v)
}

/// The value of a decimal digit, or `-1`.
fn digit_val_exec(c: char) -> (r: i8)
    ensures
        r as int == digit_val(c),
{
    if c == '0' {
        0
    } else if c == '1' {
        1
    } else if c == '2' {
        2
    } else if c == '3' {
        3
    } else if c == '4' {
        4
    } else if c == '5' {
        5
    } else if c == '6' {
        6
    } else if c == '7' {
        7
    } else if c == '8' {
        8
    } else if c == '9' {
        9
    } else {
        -1
    }
}

/// The value of a hexadecimal digit, or `-1`.
fn hex_val_exec(c: char) -> (r: i8)
    ensures
        r as int == hex_val(c),
{
    let d = digit_val_exec(c);
    if d >= 0 {
        d
    } else if c == 'a' || c == 'A' {
        10
    } else if c == 'b' || c == 'B' {
        11
    } else if c == 'c' || c == 'C' {
        12
    } else if c == 'd' || c == 'D' {
        13
    } else if c == 'e' || c == 'E' {
        14
    } else if c == 'f' || c == 'F' {
        15
    } else {
        -1
    }
}

/// What a single-character escape stands for.
fn unescape_char_exec(e: char) -> (r: Option<char>)
    ensures
        r == unescape_char(e),
{
    if e == '"' {
        Some('"')
    } else if e == '\\' {
        Some('\\')
    } else if e == '/' {
        Some('/')
    } else if e == 'b' {
        Some('\u{0008}')
    } else if e == 'f' {
        Some('\u{000c}')
    } else if e == 'n' {
        Some('\n')
    } else if e == 'r' {
        Some('\r')
    } else if e == 't' {
        Some('\t')
    } else {
        None
    }
}

/// The position after leading whitespace.
fn skip_ws(v: &Vec<char>, i: usize) -> (j: usize)
    requires
        i <= v@.len(),
    ensures
        i <= j <= v@.len(),
        v@.skip(j as int) == spec_ws(v@.skip(i as int)),
    decreases v@.len() - i,
{
    if i < v.len() {
        let c = v[i];
        if c == ' ' || c == '\t' || c == '\n' || c == '\r' {
            proof {
                assert(v@.skip(i as int).drop_first() =~= v@.skip(i as int + 1));
            }
            return skip_ws(v, i + 1);
        }
    }
    i
}

/// A string whose characters are `c` followed by those of `s`.
fn prepend_char(c: char, s: String) -> (r: String)
    ensures
        r@ == seq![c] + s@,
{
    let mut out = String::new();
    push_char(&mut out, c);
    out.append(s.as_str());
    proof {
        assert(out@ =~= seq![c] + s@);
    }
    out
}

/// Parses a string body after its opening quote, as the specification
/// function says.
fn parse_str_body(v: &Vec<char>, i: usize) -> (r: Option<(String, usize)>)
    requires
        i <= v@.len(),
    ensures
        match spec_parse_str_body(v@.skip(i as int)) {
            None => r is None,
            Some((x, rem)) => r matches Some((xs, j)) && xs@ == x && i <= j <= v@.len()
                && v@.skip(j as int) == rem,
        },
    decreases v@.len() - i,
{
    let ghost s = v@.skip(i as int);
    if i == v.len() {
        return None;
    }
    let c = v[i];
    if c == '"' {
        proof {
            assert(s.drop_first() =~= v@.skip(i as int + 1));
        }
        Some((String::new(), i + 1))
    } else if c == '\\' {
        if v.len() - i < 2 {
            return None;
        }
        let e = v[i + 1];
        if e == 'u' {
            if v.len() - i < 6 {
                return None;
            }
            let h1 = hex_val_exec(v[i + 2]);
            let h2 = hex_val_exec(v[i + 3]);
            let h3 = hex_val_exec(v[i + 4]);
            let h4 = hex_val_exec(v[i + 5]);
            if h1 < 0 || h2 < 0 || h3 < 0 || h4 < 0 {
                return None;
            }
            let val: u32 = (h1 as u32) * 4096 + (h2 as u32) * 256 + (h3 as u32) * 16 + (
            h4 as u32);
            assert(val as int == hex4_val(s[2], s[3], s[4], s[5]));
            match char_from_u32(val) {
                None => None,
                Some(d) => {
                    proof {
                        assert(s.skip(6) =~= v@.skip(i as int + 6));
                    }
                    match parse_str_body(v, i + 6) {
                        None => None,
                        Some((rest, j)) => Some((prepend_char(d, rest), j)),
                    }
                },
            }
        } else {
            match unescape_char_exec(e) {
                None => None,
                Some(d) => {
                    proof {
                        assert(s.skip(2) =~= v@.skip(i as int + 2));
                    }
                    match parse_str_body(v, i + 2) {
                        None => None,
                        Some((rest, j)) => Some((prepend_char(d, rest), j)),
                    }
                },
            }
        }
    } else {
        proof {
            assert(s.drop_first() =~= v@.skip(i as int + 1));
        }
        match parse_str_body(v, i + 1) {
            None => None,
            Some((rest, j)) => Some((prepend_char(c, rest), j)),
        }
    }
}

/// Accumulates decimal digits, as the specification function says.
fn parse_num_loop(v: &Vec<char>, i: usize, acc: u64) -> (r: Option<(u64, usize)>)
    requires
        i <= v@.len(),
    ensures
        match spec_parse_num_loop(v@.skip(i as int), acc as nat) {
            None => r is None,
            Some((n, rem)) => r matches Some((m, j)) && m as nat == n && i <= j <= v@.len()
                && v@.skip(j as int) == rem,
        },
    decreases v@.len() - i,
{
    let ghost s = v@.skip(i as int);
    if i < v.len() {
        let d = digit_val_exec(v[i]);
        if d >= 0 {
            let dv = d as u64;
            let lim: u64 = (0xFFFF_FFFF_FFFF_FFFF - dv) / 10;
            if acc > lim {
                proof {
                    let m: int = 0xFFFF_FFFF_FFFF_FFFF;
                    assert((m - dv) / 10 * 10 + (m - dv) % 10 == m - dv);
                    assert(acc * 10 >= (lim + 1) * 10);
                    assert(acc * 10 + dv > m);
                }
                None
            } else {
                proof {
                    let m: int = 0xFFFF_FFFF_FFFF_FFFF;
                    assert((m - dv) / 10 * 10 + (m - dv) % 10 == m - dv);
                    assert(acc * 10 <= lim * 10);
                    assert(acc * 10 + dv <= m);
                    assert(s.drop_first() =~= v@.skip(i as int + 1));
                }
                parse_num_loop(v, i + 1, acc * 10 + dv)
            }
        } else {
            Some((acc, i))
        }
    } else {
        Some((acc, i))
    }
}

/// Parses an unsigned integer, as the specification function says.
fn parse_number(v: &Vec<char>, i: usize) -> (r: Option<(u64, usize)>)
    requires
        i <= v@.len(),
    ensures
        match spec_parse_number(v@.skip(i as int)) {
            None => r is None,
            Some((n, rem)) => r matches Some((m, j)) && m as nat == n && i <= j <= v@.len()
                && v@.skip(j as int) == rem,
        },
{
    if i < v.len() {
        let d = digit_val_exec(v[i]);
        if d >= 0 {
            parse_num_loop(v, i, 0)
        } else {
            None
        }
    } else {
        None
    }
}

/// Parses a scalar, as the specification function says.
fn parse_scalar(v: &Vec<char>, i: usize) -> (r: Option<(Scalar, usize)>)
    requires
        i <= v@.len(),
    ensures
        match spec_parse_scalar(v@.skip(i as int)) {
            None => r is None,
            Some((x, rem)) => r matches Some((sc, j)) && sc@ == x && i <= j <= v@.len()
                && v@.skip(j as int) == rem,
        },
{
    let ghost s = v@.skip(i as int);
    if i == v.len() {
        return None;
    }
    let c = v[i];
    if c == '"' {
        proof {
            assert(s.drop_first() =~= v@.skip(i as int + 1));
        }
        match parse_str_body(v, i + 1) {
            None => None,
            Some((x, j)) => Some((Scalar::Str(x), j)),
        }
    } else if digit_val_exec(c) >= 0 {
        match parse_number(v, i) {
            None => None,
            Some((n, j)) => Some((Scalar::Num(n), j)),
        }
    } else {
        None
    }
}

/// Parses object members from the first key on, as the specification
/// function says.
fn parse_members(v: &Vec<char>, i: usize) -> (r: Option<(Vec<JsonField>, usize)>)
    requires
        i <= v@.len(),
    ensures
        match spec_parse_members(v@.skip(i as int)) {
            None => r is None,
            Some((fs, rem)) => r matches Some((fv, j)) && fields_view(fv@) == fs && i <= j
                <= v@.len() && v@.skip(j as int) == rem,
        },
    decreases v@.len() - i,
{
    let ghost s = v@.skip(i as int);
    let t = skip_ws(v, i);
    if t == v.len() {
        return None;
    }
    if v[t] != '"' {
        return None;
    }
    proof {
        assert(v@.skip(t as int).drop_first() =~= v@.skip(t as int + 1));
    }
    match parse_str_body(v, t + 1) {
        None => None,
        Some((key, p1)) => {
            let u = skip_ws(v, p1);
            if u == v.len() {
                return None;
            }
            if v[u] != ':' {
                return None;
            }
            proof {
                assert(v@.skip(u as int).drop_first() =~= v@.skip(u as int + 1));
            }
            let w0 = skip_ws(v, u + 1);
            match parse_scalar(v, w0) {
                None => None,
                Some((val, p2)) => {
                    let w = skip_ws(v, p2);
                    if w == v.len() {
                        return None;
                    }
                    let wc = v[w];
                    if wc == ',' {
                        proof {
                            assert(v@.skip(w as int).drop_first() =~= v@.skip(w as int + 1));
                            lemma_str_body_consumes(v@.skip(t as int).drop_first());
                            lemma_scalar_consumes(v@.skip(w0 as int));
                        }
                        match parse_members(v, w + 1) {
                            None => None,
                            Some((mut rest, p3)) => {
                                let ghost old_rest = rest@;
                                rest.insert(0, JsonField { key, value: val });
                                proof {
                                    assert(rest@ =~= seq![
                                        JsonField { key, value: val },
                                    ] + old_rest);
                                    assert(fields_view(rest@) =~= seq![(key@, val@)]
                                        + fields_view(old_rest));
                                }
                                Some((rest, p3))
                            },
                        }
                    } else if wc == '}' {
                        proof {
                            assert(v@.skip(w as int).drop_first() =~= v@.skip(w as int + 1));
                        }
                        let mut out: Vec<JsonField> = Vec::new();
                        out.push(JsonField { key, value: val });
                        proof {
                            assert(fields_view(out@) =~= seq![(key@, val@)]);
                        }
                        Some((out, w + 1))
                    } else {
                        None
                    }
                },
            }
        },
    }
}

/// Parses a flat object body after its opening brace, as the
/// specification function says.
fn parse_flat_body(v: &Vec<char>, i: usize) -> (r: Option<(Vec<JsonField>, usize)>)
    requires
        i <= v@.len(),
    ensures
        match spec_parse_flat_body(v@.skip(i as int)) {
            None => r is None,
            Some((fs, rem)) => r matches Some((fv, j)) && fields_view(fv@) == fs && i <= j
                <= v@.len() && v@.skip(j as int) == rem,
        },
{
    let t = skip_ws(v, i);
    if t < v.len() && v[t] == '}' {
        proof {
            assert(v@.skip(t as int).drop_first() =~= v@.skip(t as int + 1));
            assert(fields_view(Seq::<JsonField>::empty()) =~= Seq::<(
                Seq<char>,
                ScalarV,
            )>::empty());
        }
        Some((Vec::new(), t + 1))
    } else {
        parse_members(v, i)
    }
}

/// Parses a flat object from its opening brace, as the specification
/// function says.
fn parse_flat_obj(v: &Vec<char>, i: usize) -> (r: Option<(Vec<JsonField>, usize)>)
    requires
        i <= v@.len(),
    ensures
        match spec_parse_flat_obj(v@.skip(i as int)) {
            None => r is None,
            Some((fs, rem)) => r matches Some((fv, j)) && fields_view(fv@) == fs && i <= j
                <= v@.len() && v@.skip(j as int) == rem,
        },
{
    let t = skip_ws(v, i);
    if t < v.len() && v[t] == '{' {
        proof {
            assert(v@.skip(t as int).drop_first() =~= v@.skip(t as int + 1));
        }
        parse_flat_body(v, t + 1)
    } else {
        None
    }
}

/// Parses a top-level value, as the specification function says.
fn parse_top_value(v: &Vec<char>, i: usize) -> (r: Option<(TopVal, usize)>)
    requires
        i <= v@.len(),
    ensures
        match spec_parse_top_value(v@.skip(i as int)) {
            None => r is None,
            Some((x, rem)) => r matches Some((tv, j)) && tv@ == x && i <= j <= v@.len()
                && v@.skip(j as int) == rem,
        },
{
    let ghost s = v@.skip(i as int);
    if i < v.len() && v[i] == '{' {
        proof {
            assert(s.drop_first() =~= v@.skip(i as int + 1));
        }
        match parse_flat_body(v, i + 1) {
            None => None,
            Some((fs, j)) => Some((TopVal::Obj(fs), j)),
        }
    } else {
        match parse_scalar(v, i) {
            None => None,
            Some((sc, j)) => Some((TopVal::Scalar(sc), j)),
        }
    }
}

/// Parses top-level members from the first key on, as the specification
/// function says.
fn parse_top_members(v: &Vec<char>, i: usize) -> (r: Option<(Vec<TopField>, usize)>)
    requires
        i <= v@.len(),
    ensures
        match spec_parse_top_members(v@.skip(i as int)) {
            None => r is None,
            Some((fs, rem)) => r matches Some((fv, j)) && top_fields_view(fv@) == fs && i <= j
                <= v@.len() && v@.skip(j as int) == rem,
        },
    decreases v@.len() - i,
{
    let ghost s = v@.skip(i as int);
    let t = skip_ws(v, i);
    if t == v.len() {
        return None;
    }
    if v[t] != '"' {
        return None;
    }
    proof {
        assert(v@.skip(t as int).drop_first() =~= v@.skip(t as int + 1));
    }
    match parse_str_body(v, t + 1) {
        None => None,
        Some((key, p1)) => {
            let u = skip_ws(v, p1);
            if u == v.len() {
                return None;
            }
            if v[u] != ':' {
                return None;
            }
            proof {
                assert(v@.skip(u as int).drop_first() =~= v@.skip(u as int + 1));
            }
            let w0 = skip_ws(v, u + 1);
            match parse_top_value(v, w0) {
                None => None,
                Some((val, p2)) => {
                    let w = skip_ws(v, p2);
                    if w == v.len() {
                        return None;
                    }
                    let wc = v[w];
                    if wc == ',' {
                        proof {
                            assert(v@.skip(w as int).drop_first() =~= v@.skip(w as int + 1));
                            lemma_str_body_consumes(v@.skip(t as int).drop_first());
                            lemma_top_value_consumes(v@.skip(w0 as int));
                        }
                        match parse_top_members(v, w + 1) {
                            None => None,
                            Some((mut rest, p3)) => {
                                let ghost old_rest = rest@;
                                rest.insert(0, TopField { key, value: val });
                                proof {
                                    assert(rest@ =~= seq![
                                        TopField { key, value: val },
                                    ] + old_rest);
                                    assert(top_fields_view(rest@) =~= seq![(key@, val@)]
                                        + top_fields_view(old_rest));
                                }
                                Some((rest, p3))
                            },
                        }
                    } else if wc == '}' {
                        proof {
                            assert(v@.skip(w as int).drop_first() =~= v@.skip(w as int + 1));
                        }
                        let mut out: Vec<TopField> = Vec::new();
                        out.push(TopField { key, value: val });
                        proof {
                            assert(top_fields_view(out@) =~= seq![(key@, val@)]);
                        }
                        Some((out, w + 1))
                    } else {
                        None
                    }
                },
            }
        },
    }
}

/// Parses a whole text as one flat object, as the specification function
/// says.
pub(crate) fn parse_flat_text(text: &str) -> (r: Option<Vec<JsonField>>)
    ensures
        match spec_parse_flat_text(text@) {
            None => r is None,
            Some(fs) => r matches Some(fv) && fields_view(fv@) == fs,
        },
{
    let v = str_to_chars(text);
    proof {
        assert(v@.skip(0) =~= text@);
    }
    match parse_flat_obj(&v, 0) {
        None => None,
        Some((fs, j)) => {
            let k = skip_ws(&v, j);
            if k == v.len() {
                Some(fs)
            } else {
                None
            }
        },
    }
}

/// Parses a whole text as one envelope object, as the specification
/// function says.
pub(crate) fn parse_top_text(text: &str) -> (r: Option<Vec<TopField>>)
    ensures
        match spec_parse_top_text(text@) {
            None => r is None,
            Some(fs) => r matches Some(fv) && top_fields_view(fv@) == fs,
        },
{
    let v = str_to_chars(text);
    proof {
        assert(v@.skip(0) =~= text@);
    }
    match parse_top_obj(&v, 0) {
        None => None,
        Some((fs, j)) => {
            let k = skip_ws(&v, j);
            if k == v.len() {
                Some(fs)
            } else {
                None
            }
        },
    }
}

// ---------------------------------------------------------------------------
// Round trip: parsing what was emitted gives back the values
// ---------------------------------------------------------------------------

/// One emitted member with a string value.
pub open spec fn member_str(key: Seq<char>, val: Seq<char>) -> Seq<char> {
    quoted(key) + seq![':'] + quoted(val)
}

/// One emitted member with a three-digit numeric value.
pub open spec fn member_num(key: Seq<char>, n: int) -> Seq<char> {
    quoted(key) + seq![':'] + dec3(n)
}

proof fn lemma_hex_digit_val(d: int)
    requires
        0 <= d < 16,
    ensures
        hex_val(hex_digit_char(d)) == d,
{
}

proof fn lemma_digit_char_val(d: int)
    requires
        0 <= d <= 9,
    ensures
        digit_val(digit_char(d)) == d,
        is_digit_char(digit_char(d)),
{
}

/// Parsing an escaped string body followed by its closing quote gives
/// back the characters, whatever they are.
pub proof fn lemma_rt_str_body(x: Seq<char>, rest: Seq<char>)
    ensures
        spec_parse_str_body(escape_string(x) + seq!['"'] + rest) == Some((x, rest)),
    decreases x.len(),
{
    let s = escape_string(x) + seq!['"'] + rest;
    if x.len() == 0 {
        assert(escape_string(x) == Seq::<char>::empty());
        assert(s =~= seq!['"'] + rest);
        assert(s[0] == '"');
        assert(s.drop_first() =~= rest);
        assert(x =~= Seq::<char>::empty());
    } else {
        let c = x[0];
        let tail = escape_string(x.drop_first()) + seq!['"'] + rest;
        assert(escape_string(x) == escape_char(c) + escape_string(x.drop_first()));
        assert(s =~= escape_char(c) + tail);
        lemma_rt_str_body(x.drop_first(), rest);
        assert(tail.len() >= 1);
        if c == '"' {
            assert(s[0] == '\\');
            assert(s[1] == '"');
            assert(s.skip(2) =~= tail);
            assert(seq![c] + x.drop_first() =~= x);
        } else if c == '\\' {
            assert(s[0] == '\\');
            assert(s[1] == '\\');
            assert(s.skip(2) =~= tail);
            assert(seq![c] + x.drop_first() =~= x);
        } else if (c as u32) < 32 {
            let v = (c as u32) as int;
            assert(s[0] == '\\');
            assert(s[1] == 'u');
            assert(s[2] == '0');
            assert(s[3] == '0');
            assert(s[4] == hex_digit_char(v / 16));
            assert(s[5] == hex_digit_char(v % 16));
            assert(s.len() >= 7);
            vstd::arithmetic::div_mod::lemma_fundamental_div_mod(v, 16);
            vstd::arithmetic::div_mod::lemma_mod_bound(v, 16);
            assert(0 <= v / 16 < 2);
            lemma_hex_digit_val(v / 16);
            lemma_hex_digit_val(v % 16);
            assert(hex_val('0') == 0);
            let h = hex4_val(s[2], s[3], s[4], s[5]);
            assert(h == 16 * (v / 16) + v % 16);
            assert(h == v);
            assert(valid_scalar_u32(h as u32));
            assert(s.skip(6) =~= tail);
            vstd::utf8::char_u32_cast(c, c as u32);
            assert((h as u32) as char == c);
            assert(seq![c] + x.drop_first() =~= x);
        } else {
            assert(escape_char(c) =~= seq![c]);
            assert(s[0] == c);
            assert(s.drop_first() =~= tail);
            assert(seq![c] + x.drop_first() =~= x);
        }
    }
}

/// Parsing an emitted quoted string gives back its characters.
pub proof fn lemma_rt_string(x: Seq<char>, rest: Seq<char>)
    ensures
        spec_parse_string(quoted(x) + rest) == Some((x, rest)),
        spec_parse_scalar(quoted(x) + rest) == Some((ScalarV::S(x), rest)),
{
    let s = quoted(x) + rest;
    assert(s[0] == '"');
    assert(s.drop_first() =~= escape_string(x) + seq!['"'] + rest);
    lemma_rt_str_body(x, rest);
}

/// Parsing three emitted decimal digits gives back the number.
pub proof fn lemma_rt_dec3(n: int, rest: Seq<char>)
    requires
        100 <= n <= 999,
        rest.len() == 0 || !is_digit_char(rest[0]),
    ensures
        spec_parse_number(dec3(n) + rest) == Some((n as nat, rest)),
        spec_parse_scalar(dec3(n) + rest) == Some((ScalarV::N(n as nat), rest)),
{
    let s = dec3(n) + rest;
    vstd::arithmetic::div_mod::lemma_fundamental_div_mod(n, 10);
    vstd::arithmetic::div_mod::lemma_mod_bound(n, 10);
    vstd::arithmetic::div_mod::lemma_fundamental_div_mod(n / 10, 10);
    vstd::arithmetic::div_mod::lemma_mod_bound(n / 10, 10);
    vstd::arithmetic::div_mod::lemma_div_denominator(n, 10, 10);
    let q = n / 100;
    let d1 = n / 10 % 10;
    let d0 = n % 10;
    assert(n / 10 == 10 * q + d1);
    assert(n == 100 * q + 10 * d1 + d0);
    assert(1 <= q <= 9);
    vstd::arithmetic::div_mod::lemma_small_mod(q as nat, 10);
    assert(dec3(n) == seq![digit_char(q), digit_char(d1), digit_char(d0)]);
    lemma_digit_char_val(q);
    lemma_digit_char_val(d1);
    lemma_digit_char_val(d0);
    assert(s[0] == digit_char(q));
    assert(s[1] == digit_char(d1));
    assert(s[2] == digit_char(d0));
    let s1 = s.drop_first();
    let s2 = s1.drop_first();
    let s3 = s2.drop_first();
    assert(s1[0] == s[1] && s2[0] == s[2]);
    assert(s3 =~= rest);
    assert(spec_parse_num_loop(s, 0) == spec_parse_num_loop(s1, q as nat));
    assert(spec_parse_num_loop(s1, q as nat) == spec_parse_num_loop(s2, (10 * q + d1) as nat));
    assert((10 * q + d1) * 10 + d0 == n);
    assert(spec_parse_num_loop(s2, (10 * q + d1) as nat) == spec_parse_num_loop(s3, n as nat));
    assert(spec_parse_num_loop(s3, n as nat) == Some((n as nat, s3)));
    assert(s[0] != '"');
}

/// Parsing one emitted string-valued member that closes the object gives
/// back that one member.
pub proof fn lemma_members_last_str(key: Seq<char>, val: Seq<char>, rest: Seq<char>)
    ensures
        spec_parse_members(member_str(key, val) + seq!['}'] + rest) == Some(
            (seq![(key, ScalarV::S(val))], rest),
        ),
{
    let s = member_str(key, val) + seq!['}'] + rest;
    assert(s[0] == '"');
    assert(spec_ws(s) == s);
    let r1 = seq![':'] + quoted(val) + seq!['}'] + rest;
    assert(s.drop_first() =~= escape_string(key) + seq!['"'] + r1);
    lemma_rt_str_body(key, r1);
    assert(r1[0] == ':');
    assert(spec_ws(r1) == r1);
    let v = quoted(val) + (seq!['}'] + rest);
    assert(r1.drop_first() =~= v);
    assert(v[0] == '"');
    assert(spec_ws(v) == v);
    lemma_rt_string(val, seq!['}'] + rest);
    let w = seq!['}'] + rest;
    assert(spec_ws(w) == w);
    assert(w[0] == '}');
    assert(w.drop_first() =~= rest);
}

/// Parsing one emitted string-valued member followed by a comma prepends
/// that member to whatever the rest of the members parse to.
pub proof fn lemma_members_cons_str(key: Seq<char>, val: Seq<char>, cont: Seq<char>)
    ensures
        spec_parse_members(member_str(key, val) + seq![','] + cont) == (
        match spec_parse_members(cont) {
            None => None,
            Some((fs, rem)) => Some((seq![(key, ScalarV::S(val))] + fs, rem)),
        }),
{
    let s = member_str(key, val) + seq![','] + cont;
    assert(s[0] == '"');
    assert(spec_ws(s) == s);
    let r1 = seq![':'] + quoted(val) + seq![','] + cont;
    assert(s.drop_first() =~= escape_string(key) + seq!['"'] + r1);
    lemma_rt_str_body(key, r1);
    assert(r1[0] == ':');
    assert(spec_ws(r1) == r1);
    let v = quoted(val) + (seq![','] + cont);
    assert(r1.drop_first() =~= v);
    assert(v[0] == '"');
    assert(spec_ws(v) == v);
    lemma_rt_string(val, seq![','] + cont);
    let w = seq![','] + cont;
    assert(spec_ws(w) == w);
    assert(w[0] == ',');
    assert(w.drop_first() =~= cont);
}

/// Parsing one emitted numeric member followed by a comma prepends that
/// member to whatever the rest of the members parse to.
pub proof fn lemma_members_cons_num(key: Seq<char>, n: int, cont: Seq<char>)
    requires
        100 <= n <= 999,
        cont.len() > 0,
    ensures
        spec_parse_members(member_num(key, n) + seq![','] + cont) == (
        match spec_parse_members(cont) {
            None => None,
            Some((fs, rem)) => Some((seq![(key, ScalarV::N(n as nat))] + fs, rem)),
        }),
{
    let s = member_num(key, n) + seq![','] + cont;
    assert(s[0] == '"');
    assert(spec_ws(s) == s);
    let r1 = seq![':'] + dec3(n) + seq![','] + cont;
    assert(s.drop_first() =~= escape_string(key) + seq!['"'] + r1);
    lemma_rt_str_body(key, r1);
    assert(r1[0] == ':');
    assert(spec_ws(r1) == r1);
    let v = dec3(n) + (seq![','] + cont);
    assert(r1.drop_first() =~= v);
    lemma_rt_dec3(n, seq![','] + cont);
    assert(v[0] == digit_char(n / 100 % 10));
    assert(!is_ws_char(v[0]));
    assert(spec_ws(v) == v);
    let w = seq![','] + cont;
    assert(spec_ws(w) == w);
    assert(w[0] == ',');
    assert(w.drop_first() =~= cont);
}

/// A member list that starts with a key is parsed as members, not as an
/// empty object.
pub proof fn lemma_flat_body_members(s: Seq<char>)
    requires
        s.len() > 0,
        s[0] == '"',
    ensures
        spec_parse_flat_body(s) == spec_parse_members(s),
{
    assert(spec_ws(s) == s);
}

/// Parsing one emitted string-valued top-level member followed by a comma
/// prepends that member to whatever the rest parses to.
pub proof fn lemma_top_members_cons_str(key: Seq<char>, val: Seq<char>, cont: Seq<char>)
    ensures
        spec_parse_top_members(member_str(key, val) + seq![','] + cont) == (
        match spec_parse_top_members(cont) {
            None => None,
            Some((fs, rem)) => Some((seq![(key, TopValV::Scalar(ScalarV::S(val)))] + fs, rem)),
        }),
{
    let s = member_str(key, val) + seq![','] + cont;
    assert(s[0] == '"');
    assert(spec_ws(s) == s);
    let r1 = seq![':'] + quoted(val) + seq![','] + cont;
    assert(s.drop_first() =~= escape_string(key) + seq!['"'] + r1);
    lemma_rt_str_body(key, r1);
    assert(r1[0] == ':');
    assert(spec_ws(r1) == r1);
    let v = quoted(val) + (seq![','] + cont);
    assert(r1.drop_first() =~= v);
    assert(v[0] == '"');
    assert(spec_ws(v) == v);
    lemma_rt_string(val, seq![','] + cont);
    let w = seq![','] + cont;
    assert(spec_ws(w) == w);
    assert(w[0] == ',');
    assert(w.drop_first() =~= cont);
}

/// Parsing a final top-level member whose value is an object: given what
/// the object body parses to, the member closes the top-level object.
pub proof fn lemma_top_members_last_obj(
    key: Seq<char>,
    t: Seq<char>,
    fields: Seq<(Seq<char>, ScalarV)>,
    rest: Seq<char>,
)
    requires
        spec_parse_flat_body(t) == Some((fields, seq!['}'] + rest)),
    ensures
        spec_parse_top_members(quoted(key) + seq![':'] + seq!['{'] + t) == Some(
            (seq![(key, TopValV::Obj(fields))], rest),
        ),
{
    let s = quoted(key) + seq![':'] + seq!['{'] + t;
    assert(s[0] == '"');
    assert(spec_ws(s) == s);
    let r1 = seq![':'] + seq!['{'] + t;
    assert(s.drop_first() =~= escape_string(key) + seq!['"'] + r1);
    lemma_rt_str_body(key, r1);
    assert(r1[0] == ':');
    assert(spec_ws(r1) == r1);
    let v = seq!['{'] + t;
    assert(r1.drop_first() =~= v);
    assert(v[0] == '{');
    assert(!is_ws_char(v[0]));
    assert(spec_ws(v) == v);
    assert(v.drop_first() =~= t);
    let w = seq!['}'] + rest;
    assert(spec_ws(w) == w);
    assert(w[0] == '}');
    assert(w.drop_first() =~= rest);
}

/// Parses the envelope object from its first character, as the
/// specification function says.
fn parse_top_obj(v: &Vec<char>, i: usize) -> (r: Option<(Vec<TopField>, usize)>)
    requires
        i <= v@.len(),
    ensures
        match spec_parse_top_obj(v@.skip(i as int)) {
            None => r is None,
            Some((fs, rem)) => r matches Some((fv, j)) && top_fields_view(fv@) == fs && i <= j
                <= v@.len() && v@.skip(j as int) == rem,
        },
{
    let t = skip_ws(v, i);
    if t == v.len() {
        return None;
    }
    if v[t] != '{' {
        return None;
    }
    proof {
        assert(v@.skip(t as int).drop_first() =~= v@.skip(t as int + 1));
    }
    let u = skip_ws(v, t + 1);
    if u < v.len() && v[u] == '}' {
        proof {
            assert(v@.skip(u as int).drop_first() =~= v@.skip(u as int + 1));
            assert(top_fields_view(Seq::<TopField>::empty()) =~= Seq::<(
                Seq<char>,
                TopValV,
            )>::empty());
        }
        Some((Vec::new(), u + 1))
    } else {
        parse_top_members(v, t + 1)
    }
}

} // verus!
