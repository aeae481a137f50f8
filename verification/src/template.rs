//! Frame renderer: builds the exact JSON text of each wire frame by
//! concatenating fixed template fragments around an escaped content string
//! and decimal-rendered counters, without a generic serializer.

use vstd::prelude::*;
use vstd::string::*;

verus! {

/// Fragments of the content-delta chunk frame. The content string is
/// JSON-escaped and slotted between the prefix (which ends with the opening
/// quote) and the suffix (which begins with the closing quote).
pub const SSE_CHUNK_PREFIX: &'static str = r#"{"id":"chatcmpl-xxx","object":"chat.completion.chunk","created":1770187171,"model":"sonnet-mock-model","choices":[{"index":0,"delta":{"content":""#;

pub const SSE_CHUNK_SUFFIX: &'static str = r#"","reasoning_content":null},"logprobs":null,"finish_reason":null,"token_ids":null}]}"#;

/// The finish frame shares the chunk prefix; only the suffix differs, with
/// `finish_reason` set to `"length"`.
pub const SSE_FINISH_SUFFIX: &'static str = r#"","reasoning_content":null},"logprobs":null,"finish_reason":"length","token_ids":null}]}"#;

/// Fragments of the usage chunk frame: empty choice list, then a usage
/// object whose two counters are decimal-rendered into the two slots.
pub const SSE_USAGE_PREFIX: &'static str = r#"{"id":"chatcmpl-xxx","object":"chat.completion.chunk","created":1770187171,"model":"sonnet-mock-model","choices":[],"usage":{"prompt_tokens":0,"completion_tokens":"#;

pub const SSE_USAGE_MID: &'static str = r#","total_tokens":"#;

pub const SSE_USAGE_SUFFIX: &'static str = r#"}}"#;

/// Terminal sentinel marking end-of-stream for the wire format.
pub const SSE_TEMPLATE_DONE: &'static str = "[DONE]";

/// Error bodies for the two authentication failures.
pub const ERROR_INVALID_API_KEY: &'static str = r#"{"error":{"message":"Invalid API key","type":"invalid_request_error","code":"invalid_api_key"}}"#;

pub const ERROR_MISSING_API_KEY: &'static str = r#"{"error":{"message":"Missing Authorization header","type":"invalid_request_error","code":"missing_api_key"}}"#;

/// Fragments of the full (non-streamed) completion object. Note the slot
/// order: content, then `total_tokens`, then `completion_tokens`.
pub const CHAT_PREFIX: &'static str = r#"{"id":"chatcmpl-xxx","object":"chat.completion","created":1770188771,"model":"sonnet-mock-model","choices":[{"index":0,"message":{"role":"assistant","content":""#;

pub const CHAT_MID1: &'static str = r#"","refusal":null,"annotations":null,"audio":null,"function_call":null,"tool_calls":[],"reasoning":null,"reasoning_content":null},"logprobs":null,"finish_reason":"length","stop_reason":null,"token_ids":null}],"usage":{"prompt_tokens":0,"total_tokens":"#;

pub const CHAT_MID2: &'static str = r#","completion_tokens":"#;

pub const CHAT_SUFFIX: &'static str = r#","prompt_tokens_details":null}}"#;

/// The character for a single hexadecimal (and hence also decimal) digit.
pub open spec fn digit_char(d: int) -> char {
    if d == 0 {
        '0'
    } else if d == 1 {
        '1'
    } else if d == 2 {
        '2'
    } else if d == 3 {
        '3'
    } else if d == 4 {
        '4'
    } else if d == 5 {
        '5'
    } else if d == 6 {
        '6'
    } else if d == 7 {
        '7'
    } else if d == 8 {
        '8'
    } else if d == 9 {
        '9'
    } else if d == 10 {
        'a'
    } else if d == 11 {
        'b'
    } else if d == 12 {
        'c'
    } else if d == 13 {
        'd'
    } else if d == 14 {
        'e'
    } else {
        'f'
    }
}

/// How one character of a content string is written inside a JSON string
/// literal: quote, backslash and the named control characters get a
/// two-character escape, the remaining control characters a `\u00xy`
/// escape, and everything else stands for itself.
pub open spec fn escape_char(c: char) -> Seq<char> {
    if c == '"' {
        seq!['\\', '"']
    } else if c == '\\' {
        seq!['\\', '\\']
    } else if c == '\u{8}' {
        seq!['\\', 'b']
    } else if c == '\u{9}' {
        seq!['\\', 't']
    } else if c == '\u{a}' {
        seq!['\\', 'n']
    } else if c == '\u{c}' {
        seq!['\\', 'f']
    } else if c == '\u{d}' {
        seq!['\\', 'r']
    } else if (c as int) < 0x20 {
        seq!['\\', 'u', '0', '0', digit_char((c as int) / 16), digit_char((c as int) % 16)]
    } else {
        seq![c]
    }
}

/// The JSON-string escaping of a whole content string.
pub open spec fn escape_seq(s: Seq<char>) -> Seq<char>
    decreases s.len(),
{
    if s.len() == 0 {
        Seq::empty()
    } else {
        escape_char(s[0]) + escape_seq(s.drop_first())
    }
}

/// Escaping distributes over concatenation.
pub proof fn lemma_escape_seq_concat(a: Seq<char>, b: Seq<char>)
    ensures
        escape_seq(a + b) == escape_seq(a) + escape_seq(b),
    decreases a.len(),
{
    if a.len() == 0 {
        assert(a + b =~= b);
        assert(escape_seq(a) + escape_seq(b) =~= escape_seq(b));
    } else {
        assert((a + b).drop_first() =~= a.drop_first() + b);
        lemma_escape_seq_concat(a.drop_first(), b);
        assert(escape_char((a + b)[0]) + (escape_seq(a.drop_first()) + escape_seq(b))
            =~= (escape_char(a[0]) + escape_seq(a.drop_first())) + escape_seq(b));
    }
}

/// Escaping a string extended by one character appends that character's
/// escape.
pub proof fn lemma_escape_seq_push(s: Seq<char>, c: char)
    ensures
        escape_seq(s + seq![c]) == escape_seq(s) + escape_char(c),
{
    lemma_escape_seq_concat(s, seq![c]);
    assert(seq![c].drop_first() =~= Seq::<char>::empty());
    assert(escape_char(c) + escape_seq(seq![c].drop_first()) =~= escape_char(c));
}

/// The digit value of a hexadecimal digit character, or -1 where the
/// character is none.
pub open spec fn digit_val(c: char) -> int {
    if c == '0' {
        0
    } else if c == '1' {
        1
    } else if c == '2' {
        2
    } else if c == '3' {
        3
    } else if c == '4' {
        4
    } else if c == '5' {
        5
    } else if c == '6' {
        6
    } else if c == '7' {
        7
    } else if c == '8' {
        8
    } else if c == '9' {
        9
    } else if c == 'a' {
        10
    } else if c == 'b' {
        11
    } else if c == 'c' {
        12
    } else if c == 'd' {
        13
    } else if c == 'e' {
        14
    } else if c == 'f' {
        15
    } else {
        -1
    }
}

/// The control character with the given code point below 0x20.
pub open spec fn low_char(v: int) -> char {
    if v == 0x0 {
        '\u{0}'
    } else if v == 0x1 {
        '\u{1}'
    } else if v == 0x2 {
        '\u{2}'
    } else if v == 0x3 {
        '\u{3}'
    } else if v == 0x4 {
        '\u{4}'
    } else if v == 0x5 {
        '\u{5}'
    } else if v == 0x6 {
        '\u{6}'
    } else if v == 0x7 {
        '\u{7}'
    } else if v == 0x8 {
        '\u{8}'
    } else if v == 0x9 {
        '\u{9}'
    } else if v == 0xa {
        '\u{a}'
    } else if v == 0xb {
        '\u{b}'
    } else if v == 0xc {
        '\u{c}'
    } else if v == 0xd {
        '\u{d}'
    } else if v == 0xe {
        '\u{e}'
    } else if v == 0xf {
        '\u{f}'
    } else if v == 0x10 {
        '\u{10}'
    } else if v == 0x11 {
        '\u{11}'
    } else if v == 0x12 {
        '\u{12}'
    } else if v == 0x13 {
        '\u{13}'
    } else if v == 0x14 {
        '\u{14}'
    } else if v == 0x15 {
        '\u{15}'
    } else if v == 0x16 {
        '\u{16}'
    } else if v == 0x17 {
        '\u{17}'
    } else if v == 0x18 {
        '\u{18}'
    } else if v == 0x19 {
        '\u{19}'
    } else if v == 0x1a {
        '\u{1a}'
    } else if v == 0x1b {
        '\u{1b}'
    } else if v == 0x1c {
        '\u{1c}'
    } else if v == 0x1d {
        '\u{1d}'
    } else if v == 0x1e {
        '\u{1e}'
    } else {
        '\u{1f}'
    }
}

/// Prepend a decoded character to the rest of a decode, propagating
/// failure.
pub open spec fn unescape_cons(c: char, rest: Option<Seq<char>>) -> Option<Seq<char>> {
    match rest {
        Some(t) => Some(seq![c] + t),
        None => None,
    }
}

/// Decode the body of a JSON string literal back into its content: the
/// inverse of `escape_seq`. Unescaped quotes, backslashes and control
/// characters are rejected, as a JSON parser would reject them inside a
/// string literal.
pub open spec fn unescape_seq(s: Seq<char>) -> Option<Seq<char>>
    decreases s.len(),
{
    if s.len() == 0 {
        Some(Seq::empty())
    } else if s[0] == '\\' {
        if s.len() < 2 {
            None
        } else if s[1] == '"' {
            unescape_cons('"', unescape_seq(s.skip(2)))
        } else if s[1] == '\\' {
            unescape_cons('\\', unescape_seq(s.skip(2)))
        } else if s[1] == 'b' {
            unescape_cons('\u{8}', unescape_seq(s.skip(2)))
        } else if s[1] == 't' {
            unescape_cons('\u{9}', unescape_seq(s.skip(2)))
        } else if s[1] == 'n' {
            unescape_cons('\u{a}', unescape_seq(s.skip(2)))
        } else if s[1] == 'f' {
            unescape_cons('\u{c}', unescape_seq(s.skip(2)))
        } else if s[1] == 'r' {
            unescape_cons('\u{d}', unescape_seq(s.skip(2)))
        } else if s[1] == 'u' {
            if s.len() < 6 {
                None
            } else if s[2] == '0' && s[3] == '0' && digit_val(s[4]) >= 0 && digit_val(s[5]) >= 0
                && 16 * digit_val(s[4]) + digit_val(s[5]) < 0x20 {
                unescape_cons(low_char(16 * digit_val(s[4]) + digit_val(s[5])), unescape_seq(s.skip(6)))
            } else {
                None
            }
        } else {
            None
        }
    } else if s[0] == '"' || (s[0] as int) < 0x20 {
        None
    } else {
        unescape_cons(s[0], unescape_seq(s.skip(1)))
    }
}

/// A character's code point lies in the Unicode code-point range.
proof fn lemma_char_range(c: char)
    ensures
        0 <= (c as int) && (c as int) < 0x110000,
{
}

/// Round trip: decoding an escaped content string gives back exactly the
/// original content — the renderer's escaping loses nothing and never
/// double-escapes.
pub proof fn lemma_unescape_escape(s: Seq<char>)
    ensures
        unescape_seq(escape_seq(s)) == Some(s),
    decreases s.len(),
{
    if s.len() == 0 {
    } else {
        let c = s[0];
        let rest = s.drop_first();
        lemma_unescape_escape(rest);
        let e = escape_seq(s);
        assert(e == escape_char(c) + escape_seq(rest));
        if c == '"' || c == '\\' || c == '\u{8}' || c == '\u{9}' || c == '\u{a}' || c == '\u{c}'
            || c == '\u{d}' {
            assert(e.skip(2) =~= escape_seq(rest));
            assert(unescape_seq(e) == unescape_cons(c, unescape_seq(escape_seq(rest))));
            assert(seq![c] + rest =~= s);
        } else if (c as int) < 0x20 {
            let v = c as int;
            lemma_char_range(c);
            assert(e[0] == '\\' && e[1] == 'u' && e[2] == '0' && e[3] == '0');
            assert(e[4] == digit_char(v / 16) && e[5] == digit_char(v % 16));
            assert(0 <= v / 16 < 2 && 0 <= v % 16 < 16) by (nonlinear_arith)
                requires
                    0 <= v < 0x20,
            ;
            assert(digit_val(digit_char(v / 16)) == v / 16);
            assert(digit_val(digit_char(v % 16)) == v % 16);
            assert(16 * (v / 16) + v % 16 == v);
            assert(low_char(v) == c);
            assert(e.skip(6) =~= escape_seq(rest));
            assert(unescape_seq(e) == unescape_cons(c, unescape_seq(escape_seq(rest))));
            assert(seq![c] + rest =~= s);
        } else {
            assert(e[0] == c);
            assert(e.skip(1) =~= escape_seq(rest));
            assert(unescape_seq(e) == unescape_cons(c, unescape_seq(escape_seq(rest))));
            assert(seq![c] + rest =~= s);
        }
    }
}

/// Escaping is injective: two content strings with the same escaped text
/// are the same string.
pub proof fn lemma_escape_seq_injective(a: Seq<char>, b: Seq<char>)
    requires
        escape_seq(a) == escape_seq(b),
    ensures
        a == b,
{
    lemma_unescape_escape(a);
    lemma_unescape_escape(b);
}

/// Relies on `String::push`: appends exactly the given character.
#[verifier::external_body]
fn push_char(s: &mut String, c: char)
    ensures
        final(s)@ == old(s)@ + seq![c],
{
    s.push(c);
}

/// The character for a digit value below 16.
fn ascii_digit(d: usize) -> (c: char)
    requires
        d < 16,
    ensures
        c == digit_char(d as int),
{
    if d == 0 {
        '0'
    } else if d == 1 {
        '1'
    } else if d == 2 {
        '2'
    } else if d == 3 {
        '3'
    } else if d == 4 {
        '4'
    } else if d == 5 {
        '5'
    } else if d == 6 {
        '6'
    } else if d == 7 {
        '7'
    } else if d == 8 {
        '8'
    } else if d == 9 {
        '9'
    } else if d == 10 {
        'a'
    } else if d == 11 {
        'b'
    } else if d == 12 {
        'c'
    } else if d == 13 {
        'd'
    } else if d == 14 {
        'e'
    } else {
        'f'
    }
}

/// JSON-escape a content string: the result is the body of a JSON string
/// literal for it, without the delimiting quotes.
pub fn json_escape(content: &str) -> (r: String)
    ensures
        r@ == escape_seq(content@),
{
    let n = content.unicode_len();
    let mut out = String::new();
    let mut i: usize = 0;
    while i < n
        invariant
            n == content@.len(),
            i <= n,
            out@ == escape_seq(content@.take(i as int)),
        decreases n - i,
    {
        let c = content.get_char(i);
        if c == '"' {
            push_char(&mut out, '\\');
            push_char(&mut out, '"');
        } else if c == '\\' {
            push_char(&mut out, '\\');
            push_char(&mut out, '\\');
        } else if c == '\u{8}' {
            push_char(&mut out, '\\');
            push_char(&mut out, 'b');
        } else if c == '\u{9}' {
            push_char(&mut out, '\\');
            push_char(&mut out, 't');
        } else if c == '\u{a}' {
            push_char(&mut out, '\\');
            push_char(&mut out, 'n');
        } else if c == '\u{c}' {
            push_char(&mut out, '\\');
            push_char(&mut out, 'f');
        } else if c == '\u{d}' {
            push_char(&mut out, '\\');
            push_char(&mut out, 'r');
        } else if (c as u32) < 0x20 {
            let u = (c as u32) as usize;
            push_char(&mut out, '\\');
            push_char(&mut out, 'u');
            push_char(&mut out, '0');
            push_char(&mut out, '0');
            push_char(&mut out, ascii_digit(u / 16));
            push_char(&mut out, ascii_digit(u % 16));
        } else {
            push_char(&mut out, c);
        }
        proof {
            assert(content@.take(i + 1) =~= content@.take(i as int) + seq![content@[i as int]]);
            lemma_escape_seq_push(content@.take(i as int), content@[i as int]);
        }
        i = i + 1;
    }
    proof {
        assert(content@.take(n as int) =~= content@);
    }
    out
}

/// The decimal rendering of a number: digits in order, no leading zeros, no
/// separators.
pub open spec fn dec_rep(n: nat) -> Seq<char>
    decreases n,
{
    if n < 10 {
        seq![digit_char(n as int)]
    } else {
        dec_rep(n / 10) + seq![digit_char((n % 10) as int)]
    }
}

/// Render a counter as decimal text.
pub fn format_usize(n: usize) -> (r: String)
    ensures
        r@ == dec_rep(n as nat),
    decreases n,
{
    if n < 10 {
        let mut s = String::new();
        push_char(&mut s, ascii_digit(n));
        proof {
            assert(Seq::<char>::empty() + seq![digit_char(n as int)] =~= dec_rep(n as nat));
        }
        s
    } else {
        let mut s = format_usize(n / 10);
        push_char(&mut s, ascii_digit(n % 10));
        s
    }
}

/// The exact text of a content-delta frame for the given content.
pub open spec fn sse_chunk_text(content: Seq<char>) -> Seq<char> {
    SSE_CHUNK_PREFIX@ + escape_seq(content) + SSE_CHUNK_SUFFIX@
}

/// The exact text of a finish frame (`finish_reason = "length"`) for the
/// given content.
pub open spec fn sse_finish_text(content: Seq<char>) -> Seq<char> {
    SSE_CHUNK_PREFIX@ + escape_seq(content) + SSE_FINISH_SUFFIX@
}

/// The exact text of a usage frame for the given counters.
pub open spec fn sse_usage_text(completion_tokens: nat, total_tokens: nat) -> Seq<char> {
    SSE_USAGE_PREFIX@ + dec_rep(completion_tokens) + SSE_USAGE_MID@ + dec_rep(total_tokens)
        + SSE_USAGE_SUFFIX@
}

/// The exact text of a full completion object for the given content and
/// counters.
pub open spec fn chat_completion_text(
    content: Seq<char>,
    completion_tokens: nat,
    total_tokens: nat,
) -> Seq<char> {
    CHAT_PREFIX@ + escape_seq(content) + CHAT_MID1@ + dec_rep(total_tokens) + CHAT_MID2@
        + dec_rep(completion_tokens) + CHAT_SUFFIX@
}

/// Render a content-delta frame: the content is JSON-escaped into the
/// template's content slot.
pub fn render_sse_chunk(content: &str) -> (r: String)
    ensures
        r@ == sse_chunk_text(content@),
{
    let mut result = String::from_str(SSE_CHUNK_PREFIX);
    let escaped = json_escape(content);
    result.append(escaped.as_str());
    result.append(SSE_CHUNK_SUFFIX);
    result
}

/// Render a finish frame: same shape as a content-delta frame, but with
/// `finish_reason = "length"`.
pub fn render_sse_finish(content: &str) -> (r: String)
    ensures
        r@ == sse_finish_text(content@),
{
    let mut result = String::from_str(SSE_CHUNK_PREFIX);
    let escaped = json_escape(content);
    result.append(escaped.as_str());
    result.append(SSE_FINISH_SUFFIX);
    result
}

/// Render a usage frame; `prompt_tokens` is always 0, as this mock performs
/// no prompt accounting.
pub fn render_sse_usage(completion_tokens: usize, total_tokens: usize) -> (r: String)
    ensures
        r@ == sse_usage_text(completion_tokens as nat, total_tokens as nat),
{
    let ct_str = format_usize(completion_tokens);
    let tt_str = format_usize(total_tokens);
    let mut result = String::from_str(SSE_USAGE_PREFIX);
    result.append(ct_str.as_str());
    result.append(SSE_USAGE_MID);
    result.append(tt_str.as_str());
    result.append(SSE_USAGE_SUFFIX);
    result
}

/// Render the single non-streamed completion object.
pub fn render_chat_completion(content: &str, completion_tokens: usize, total_tokens: usize) -> (r:
    String)
    ensures
        r@ == chat_completion_text(content@, completion_tokens as nat, total_tokens as nat),
{
    let tt_str = format_usize(total_tokens);
    let ct_str = format_usize(completion_tokens);
    let mut result = String::from_str(CHAT_PREFIX);
    let escaped = json_escape(content);
    result.append(escaped.as_str());
    result.append(CHAT_MID1);
    result.append(tt_str.as_str());
    result.append(CHAT_MID2);
    result.append(ct_str.as_str());
    result.append(CHAT_SUFFIX);
    result
}

/// Render the literal end-of-stream sentinel.
pub fn render_sse_done() -> (r: String)
    ensures
        r@ == SSE_TEMPLATE_DONE@,
{
    String::from_str(SSE_TEMPLATE_DONE)
}

} // verus!
