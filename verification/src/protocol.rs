//! The chat-completion wire format. The request body is framed here as
//! verified text: a JSON object with the model identifier, a two-message
//! system/user exchange, and optionally the JSON-object output request. The
//! string escaper below is the library's own, specified character by
//! character.

use vstd::prelude::*;

use crate::text::{
    ends_with_str, spec_ends_with, spec_starts_with, spec_strip_trailing_slashes, spec_trim,
    starts_with_str, strip_trailing_slashes, trim,
};

verus! {

/// The hexadecimal digit character for `d` (lower case).
pub open spec fn hex_digit_char(d: int) -> char {
    if d == 0 {
        '0'
    } else if d == 1 {
        '1'
    } else if d == 2 {
        '2'
    } else if d == 3 {
        '3'
    } else if d == 4 {
        '4'
    } else if d == 5 {
        '5'
    } else if d == 6 {
        '6'
    } else if d == 7 {
        '7'
    } else if d == 8 {
        '8'
    } else if d == 9 {
        '9'
    } else if d == 10 {
        'a'
    } else if d == 11 {
        'b'
    } else if d == 12 {
        'c'
    } else if d == 13 {
        'd'
    } else if d == 14 {
        'e'
    } else {
        'f'
    }
}

/// How one character appears inside a JSON string literal: quote and
/// backslash are escaped, the common control characters get their short
/// escapes, the remaining control characters a `\u00XX` escape, and every
/// other character stands for itself.
pub open spec fn spec_escaped_char(c: char) -> Seq<char> {
    if c == '"' {
        seq!['\\', '"']
    } else if c == '\\' {
        seq!['\\', '\\']
    } else if c == '\n' {
        seq!['\\', 'n']
    } else if c == '\r' {
        seq!['\\', 'r']
    } else if c == '\t' {
        seq!['\\', 't']
    } else if c == '\u{8}' {
        seq!['\\', 'b']
    } else if c == '\u{c}' {
        seq!['\\', 'f']
    } else if (c as u32) < 32 {
        seq!['\\', 'u', '0', '0', hex_digit_char(((c as u32) as int) / 16), hex_digit_char(((c as u32) as int) % 16)]
    } else {
        seq![c]
    }
}

/// `s` with every character in its JSON string literal form.
pub open spec fn spec_json_escaped(s: Seq<char>) -> Seq<char>
    decreases s.len(),
{
    if s.len() == 0 {
        Seq::empty()
    } else {
        spec_escaped_char(s[0]) + spec_json_escaped(s.drop_first())
    }
}

/// Escaping distributes over appending one character.
proof fn lemma_json_escaped_snoc(s: Seq<char>, c: char)
    ensures
        spec_json_escaped(s.push(c)) == spec_json_escaped(s) + spec_escaped_char(c),
    decreases s.len(),
{
    if s.len() == 0 {
        assert(s.push(c)[0] == c);
        assert(s.push(c).drop_first() =~= Seq::<char>::empty());
        assert(spec_json_escaped(s.push(c)) == spec_escaped_char(c) + spec_json_escaped(
            Seq::<char>::empty(),
        ));
        assert(spec_json_escaped(s.push(c)) =~= spec_json_escaped(s) + spec_escaped_char(c));
    } else {
        assert(s.push(c)[0] == s[0]);
        assert(s.push(c).drop_first() =~= s.drop_first().push(c));
        lemma_json_escaped_snoc(s.drop_first(), c);
        assert(spec_json_escaped(s.push(c)) == spec_escaped_char(s[0]) + (spec_json_escaped(
            s.drop_first(),
        ) + spec_escaped_char(c)));
        assert(spec_json_escaped(s.push(c)) =~= spec_json_escaped(s) + spec_escaped_char(c));
    }
}

fn push_hex_digit(out: &mut String, d: u32)
    requires
        d < 16,
    ensures
        final(out)@ == old(out)@ + seq![hex_digit_char(d as int)],
{
    if d == 0 {
        out.append("0");
        proof {
            reveal_strlit("0");
            assert("0"@ =~= seq![hex_digit_char(d as int)]);
        }
    } else if d == 1 {
        out.append("1");
        proof {
            reveal_strlit("1");
            assert("1"@ =~= seq![hex_digit_char(d as int)]);
        }
    } else if d == 2 {
        out.append("2");
        proof {
            reveal_strlit("2");
            assert("2"@ =~= seq![hex_digit_char(d as int)]);
        }
    } else if d == 3 {
        out.append("3");
        proof {
            reveal_strlit("3");
            assert("3"@ =~= seq![hex_digit_char(d as int)]);
        }
    } else if d == 4 {
        out.append("4");
        proof {
            reveal_strlit("4");
            assert("4"@ =~= seq![hex_digit_char(d as int)]);
        }
    } else if d == 5 {
        out.append("5");
        proof {
            reveal_strlit("5");
            assert("5"@ =~= seq![hex_digit_char(d as int)]);
        }
    } else if d == 6 {
        out.append("6");
        proof {
            reveal_strlit("6");
            assert("6"@ =~= seq![hex_digit_char(d as int)]);
        }
    } else if d == 7 {
        out.append("7");
        proof {
            reveal_strlit("7");
            assert("7"@ =~= seq![hex_digit_char(d as int)]);
        }
    } else if d == 8 {
        out.append("8");
        proof {
            reveal_strlit("8");
            assert("8"@ =~= seq![hex_digit_char(d as int)]);
        }
    } else if d == 9 {
        out.append("9");
        proof {
            reveal_strlit("9");
            assert("9"@ =~= seq![hex_digit_char(d as int)]);
        }
    } else if d == 10 {
        out.append("a");
        proof {
            reveal_strlit("a");
            assert("a"@ =~= seq![hex_digit_char(d as int)]);
        }
    } else if d == 11 {
        out.append("b");
        proof {
            reveal_strlit("b");
            assert("b"@ =~= seq![hex_digit_char(d as int)]);
        }
    } else if d == 12 {
        out.append("c");
        proof {
            reveal_strlit("c");
            assert("c"@ =~= seq![hex_digit_char(d as int)]);
        }
    } else if d == 13 {
        out.append("d");
        proof {
            reveal_strlit("d");
            assert("d"@ =~= seq![hex_digit_char(d as int)]);
        }
    } else if d == 14 {
        out.append("e");
        proof {
            reveal_strlit("e");
            assert("e"@ =~= seq![hex_digit_char(d as int)]);
        }
    } else {
        out.append("f");
        proof {
            reveal_strlit("f");
            assert("f"@ =~= seq![hex_digit_char(d as int)]);
        }
    }
}

/// Whether `c` has an escaped form inside a JSON string literal.
fn needs_escape(c: char) -> (r: bool)
    ensures
        r == (c == '"' || c == '\\' || (c as u32) < 32),
{
    c == '"' || c == '\\' || (c as u32) < 32
}

fn push_escaped(out: &mut String, c: char)
    requires
        c == '"' || c == '\\' || (c as u32) < 32,
    ensures
        final(out)@ == old(out)@ + spec_escaped_char(c),
{
    if c == '"' {
        out.append("\\\"");
        proof {
            reveal_strlit("\\\"");
            assert("\\\""@ =~= spec_escaped_char(c));
        }
    } else if c == '\\' {
        out.append("\\\\");
        proof {
            reveal_strlit("\\\\");
            assert("\\\\"@ =~= spec_escaped_char(c));
        }
    } else if c == '\n' {
        out.append("\\n");
        proof {
            reveal_strlit("\\n");
            assert("\\n"@ =~= spec_escaped_char(c));
        }
    } else if c == '\r' {
        out.append("\\r");
        proof {
            reveal_strlit("\\r");
            assert("\\r"@ =~= spec_escaped_char(c));
        }
    } else if c == '\t' {
        out.append("\\t");
        proof {
            reveal_strlit("\\t");
            assert("\\t"@ =~= spec_escaped_char(c));
        }
    } else if c == '\u{8}' {
        out.append("\\b");
        proof {
            reveal_strlit("\\b");
            assert("\\b"@ =~= spec_escaped_char(c));
        }
    } else if c == '\u{c}' {
        out.append("\\f");
        proof {
            reveal_strlit("\\f");
            assert("\\f"@ =~= spec_escaped_char(c));
        }
    } else {
        let code = c as u32;
        out.append("\\u00");
        if code >= 16 {
            out.append("1");
            proof {
                reveal_strlit("1");
                assert("1"@ =~= seq![hex_digit_char(((c as u32) as int) / 16)]);
            }
        } else {
            out.append("0");
            proof {
                reveal_strlit("0");
                assert("0"@ =~= seq![hex_digit_char(((c as u32) as int) / 16)]);
            }
        }
        push_hex_digit(out, code % 16);
        proof {
            reveal_strlit("\\u00");
            assert((*out)@ =~= old(out)@ + spec_escaped_char(c));
        }
    }
}

/// Renders `s` in its JSON string literal form (without the surrounding
/// quotes).
pub fn json_escape(s: &str) -> (r: String)
    ensures
        r@ == spec_json_escaped(s@),
{
    let n = s.unicode_len();
    let mut r = String::new();
    let mut i: usize = 0;
    while i < n
        invariant
            0 <= i <= n,
            n == s@.len(),
            r@ == spec_json_escaped(s@.subrange(0, i as int)),
        decreases n - i,
    {
        let c = s.get_char(i);
        if needs_escape(c) {
            push_escaped(&mut r, c);
        } else {
            r.append(s.substring_char(i, i + 1));
            proof {
                assert(s@.subrange(i as int, i + 1) =~= spec_escaped_char(c));
            }
        }
        proof {
            lemma_json_escaped_snoc(s@.subrange(0, i as int), s@[i as int]);
            assert(s@.subrange(0, i + 1) =~= s@.subrange(0, i as int).push(s@[i as int]));
        }
        i = i + 1;
    }
    proof {
        assert(s@.subrange(0, n as int) =~= s@);
    }
    r
}

/// A JSON string literal holding `s`: quote, escaped characters, quote.
pub open spec fn spec_json_string(s: Seq<char>) -> Seq<char> {
    seq!['"'] + spec_json_escaped(s) + seq!['"']
}

fn append_json_string(out: &mut String, s: &str)
    ensures
        final(out)@ == old(out)@ + spec_json_string(s@),
{
    out.append("\"");
    let e = json_escape(s);
    out.append(e.as_str());
    out.append("\"");
    proof {
        reveal_strlit("\"");
        assert("\""@ =~= seq!['"']);
        assert((*out)@ =~= old(out)@ + spec_json_string(s@));
    }
}

/// The request body: `model`, the two-message system/user exchange, and,
/// when `json_object_format` is set, the JSON-object output request that
/// OpenAI-compatible endpoints understand.
pub open spec fn spec_chat_body(
    model: Seq<char>,
    system: Seq<char>,
    user: Seq<char>,
    json_object_format: bool,
) -> Seq<char> {
    "{\"model\":"@ + spec_json_string(model)
        + ",\"messages\":[{\"role\":\"system\",\"content\":"@ + spec_json_string(system)
        + "},{\"role\":\"user\",\"content\":"@ + spec_json_string(user) + "}]"@ + (
    if json_object_format {
        ",\"response_format\":{\"type\":\"json_object\"}"@
    } else {
        Seq::<char>::empty()
    }) + "}"@
}

/// Frames the chat-completion request body.
pub fn build_chat_body(model: &str, system: &str, user: &str, json_object_format: bool) -> (r:
    String)
    ensures
        r@ == spec_chat_body(model@, system@, user@, json_object_format),
{
    let mut r = String::from_str("{\"model\":");
    append_json_string(&mut r, model);
    r.append(",\"messages\":[{\"role\":\"system\",\"content\":");
    append_json_string(&mut r, system);
    r.append("},{\"role\":\"user\",\"content\":");
    append_json_string(&mut r, user);
    r.append("}]");
    if json_object_format {
        r.append(",\"response_format\":{\"type\":\"json_object\"}");
    }
    r.append("}");
    proof {
        assert(r@ =~= spec_chat_body(model@, system@, user@, json_object_format));
    }
    r
}

/// The fixed instruction template wrapped around the user's text.
pub open spec fn spec_fix_prompt(text: Seq<char>) -> Seq<char> {
    "Fix the grammar and style of this text:\n\n"@ + text
}

/// Wraps the user's text in the fixed instruction template.
pub fn fix_prompt(text: &str) -> (r: String)
    ensures
        r@ == spec_fix_prompt(text@),
{
    let mut r = String::from_str("Fix the grammar and style of this text:\n\n");
    r.append(text);
    r
}

/// The request URL: the endpoint without its trailing slashes, then the
/// chat-completions path.
pub open spec fn spec_chat_url(endpoint: Seq<char>) -> Seq<char> {
    spec_strip_trailing_slashes(endpoint) + "/chat/completions"@
}

/// Builds the chat-completions URL for a resolved endpoint.
pub fn chat_url(endpoint: &str) -> (r: String)
    ensures
        r@ == spec_chat_url(endpoint@),
{
    let mut r = String::from_str(strip_trailing_slashes(endpoint));
    r.append("/chat/completions");
    r
}

/// Response content with one optional surrounding markdown code fence
/// removed: after trimming, a leading ```` ```json ```` or ```` ``` ```` and
/// a trailing ```` ``` ```` are stripped, and the remainder trimmed again.
pub open spec fn spec_strip_fence(s: Seq<char>) -> Seq<char> {
    let t = spec_trim(s);
    let u = if spec_starts_with(t, "```json"@) {
        t.skip("```json"@.len() as int)
    } else if spec_starts_with(t, "```"@) {
        t.skip("```"@.len() as int)
    } else {
        t
    };
    let v = if spec_ends_with(u, "```"@) {
        u.take(u.len() - "```"@.len())
    } else {
        u
    };
    spec_trim(v)
}

/// Strips one optional markdown code fence (language-tagged or bare) so the
/// content inside can be parsed as JSON.
pub fn strip_markdown_code_fence(content: &str) -> (r: &str)
    ensures
        r@ == spec_strip_fence(content@),
{
    let t = trim(content);
    let tn = t.unicode_len();
    let u = if starts_with_str(t, "```json") {
        proof {
            reveal_strlit("```json");
        }
        let u = t.substring_char(7, tn);
        proof {
            assert(u@ =~= t@.skip("```json"@.len() as int));
        }
        u
    } else if starts_with_str(t, "```") {
        proof {
            reveal_strlit("```");
        }
        let u = t.substring_char(3, tn);
        proof {
            assert(u@ =~= t@.skip("```"@.len() as int));
        }
        u
    } else {
        t
    };
    let un = u.unicode_len();
    let v = if ends_with_str(u, "```") {
        proof {
            reveal_strlit("```");
        }
        let v = u.substring_char(0, un - 3);
        proof {
            assert(v@ =~= u@.take(u@.len() - "```"@.len()));
        }
        v
    } else {
        u
    };
    trim(v)
}

} // verus!
