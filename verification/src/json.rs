use vstd::prelude::*;

verus! {

/// The lowercase hexadecimal digit for `n` (below 16).
pub open spec fn hex_digit(n: u32) -> char {
    if n < 10 {
        (48 + n) as char
    } else {
        (87 + n) as char
    }
}

/// How one character is written inside a JSON string: `"` and `\` behind a
/// backslash; backspace, tab, line feed, form feed and carriage return as
/// `\b \t \n \f \r`; the other control characters below U+0020 as `\u00XX`
/// with lowercase hexadecimal digits; every other character as it is.
pub open spec fn json_char_escape(c: char) -> Seq<char> {
    let v = c as u32;
    if c == '"' {
        seq!['\\', '"']
    } else if c == '\\' {
        seq!['\\', '\\']
    } else if v == 0x08 {
        seq!['\\', 'b']
    } else if v == 0x09 {
        seq!['\\', 't']
    } else if v == 0x0A {
        seq!['\\', 'n']
    } else if v == 0x0C {
        seq!['\\', 'f']
    } else if v == 0x0D {
        seq!['\\', 'r']
    } else if v < 0x20 {
        seq!['\\', 'u', '0', '0', hex_digit(v / 16), hex_digit(v % 16)]
    } else {
        seq![c]
    }
}

/// The characters of `s`, each escaped as inside a JSON string.
pub open spec fn json_escaped(s: Seq<char>) -> Seq<char>
    decreases s.len(),
{
    if s.len() == 0 {
        Seq::empty()
    } else {
        json_escaped(s.drop_last()) + json_char_escape(s.last())
    }
}

/// The JSON string literal for `s`: the escaped characters between double
/// quotes.
pub open spec fn json_string_literal(s: Seq<char>) -> Seq<char> {
    seq!['"'] + json_escaped(s) + seq!['"']
}

/// Whether `c` is written as it is inside a JSON string.
pub open spec fn json_plain_char(c: char) -> bool {
    c != '"' && c != '\\' && (c as u32) >= 0x20
}

/// Text with no quote, backslash or control character is written verbatim
/// between double quotes.
pub proof fn law_plain_text_is_quoted_verbatim(s: Seq<char>)
    requires
        forall|i: int| 0 <= i < s.len() ==> json_plain_char(#[trigger] s[i]),
    ensures
        json_escaped(s) == s,
        json_string_literal(s) == seq!['"'] + s + seq!['"'],
    decreases s.len(),
{
    if s.len() > 0 {
        let init = s.drop_last();
        assert forall|i: int| 0 <= i < init.len() implies json_plain_char(#[trigger] init[i]) by {
            assert(init[i] == s[i]);
        }
        law_plain_text_is_quoted_verbatim(init);
        assert(json_plain_char(s[s.len() - 1]));
        assert(json_escaped(s) == init + seq![s.last()]);
        assert(init + seq![s.last()] =~= s);
    }
}

/// Calls `serde_json::to_string` on the string slice `s`. serde_json
/// serialises a `str` with `format_escaped_str` into a `Vec<u8>` writer, which
/// cannot fail, so the call returns `Ok` for every input (ser.rs, `to_vec` and
/// `serialize_str`). The text is `json_string_literal(s)`: the compact
/// formatter's quotes around the string, escaped by the `ESCAPE` table and
/// `write_char_escape` of ser.rs (bytes from 0x80 up, the UTF-8 of non-ASCII
/// characters, are never escaped).
#[verifier::external_body]
fn serde_json_str(s: &str) -> (r: Result<String, String>)
    ensures
        r is Ok,
        r matches Ok(t) ==> t@ == json_string_literal(s@),
{
    match serde_json::to_string(s) {
        Ok(t) => Ok(t),
        Err(e) => Err(e.to_string()),
    }
}

/// The JSON string literal for `s`.
pub fn string_literal(s: &str) -> (r: String)
    ensures
        r@ == json_string_literal(s@),
{
    match serde_json_str(s) {
        Ok(t) => t,
        Err(_) => {
            proof {
                assert(false);
            }
            String::new()
        },
    }
}

} // verus!
