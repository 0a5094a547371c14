//! Text encodings used on the wire: decimal numbers, JSON text, hex and base64.
use vstd::prelude::*;
use vstd::string::*;
use base64::Engine;
use vstd::utf8::encode_utf8;

verus! {

/// The character of a decimal digit `d` (`d < 10`).
pub open spec fn digit_char(d: nat) -> char {
    (d + 48) as char
}

/// The decimal notation of `n`, without sign or leading zeros.
pub open spec fn decimal(n: nat) -> Seq<char>
    decreases n,
{
    if n < 10 {
        seq![digit_char(n)]
    } else {
        decimal(n / 10).push(digit_char(n % 10))
    }
}

/// Writes `n` in decimal notation.
pub fn decimal_string(n: u64) -> (r: String)
    ensures
        r@ == decimal(n as nat),
    decreases n,
{
    let digits = "0123456789";
    proof {
        reveal_strlit("0123456789");
    }
    let d = (n % 10) as usize;
    let last = digits.substring_ascii(d, d + 1);
    assert(last@ =~= seq![digit_char(d as nat)]) by {
        assert(digits@[d as int] == digit_char(d as nat));
    }
    if n < 10 {
        String::from_str(last)
    } else {
        let mut s = decimal_string(n / 10);
        s.append(last);
        s
    }
}

/// `items` joined by `sep`.
pub open spec fn join(items: Seq<Seq<char>>, sep: Seq<char>) -> Seq<char>
    decreases items.len(),
{
    if items.len() == 0 {
        seq![]
    } else if items.len() == 1 {
        items[0]
    } else {
        join(items.drop_last(), sep) + sep + items.last()
    }
}

/// Joins `items` with `sep` between each two of them.
pub fn join_strings(items: &Vec<String>, sep: &str) -> (r: String)
    ensures
        r@ == join(items@.map_values(|v: String| v@), sep@),
{
    let ghost views = items@.map_values(|v: String| v@);
    let mut r = String::new();
    let mut i: usize = 0;
    while i < items.len()
        invariant
            i <= items.len(),
            views == items@.map_values(|v: String| v@),
            r@ == join(views.take(i as int), sep@),
        decreases items.len() - i,
    {
        if i != 0 {
            r.append(sep);
        }
        r.append(items[i].as_str());
        assert(views.take(i + 1).drop_last() =~= views.take(i as int));
        i = i + 1;
    }
    assert(views.take(items.len() as int) =~= views);
    r
}

/// A hexadecimal digit in lower case (`d < 16`).
pub open spec fn hex_digit(d: nat) -> char {
    if d < 10 {
        (d + 48) as char
    } else {
        (d + 87) as char
    }
}

/// How a JSON string literal writes the character `c`: quote, backslash and the
/// control characters below U+0020 are escaped, every other character stands as it is.
pub open spec fn json_escape_char(c: char) -> Seq<char> {
    if c == '"' {
        seq!['\\', '"']
    } else if c == '\\' {
        seq!['\\', '\\']
    } else if c == '\u{8}' {
        seq!['\\', 'b']
    } else if c == '\t' {
        seq!['\\', 't']
    } else if c == '\n' {
        seq!['\\', 'n']
    } else if c == '\u{c}' {
        seq!['\\', 'f']
    } else if c == '\r' {
        seq!['\\', 'r']
    } else if (c as u32) < 0x20 {
        seq!['\\', 'u', '0', '0', hex_digit((c as u32 / 16) as nat), hex_digit((c as u32 % 16) as nat)]
    } else {
        seq![c]
    }
}

/// The characters of `s` as they stand between the quotes of a JSON string.
pub open spec fn json_escape(s: Seq<char>) -> Seq<char>
    decreases s.len(),
{
    if s.len() == 0 {
        seq![]
    } else {
        json_escape_char(s[0]) + json_escape(s.drop_first())
    }
}

/// `s` as a JSON string literal.
pub open spec fn json_string(s: Seq<char>) -> Seq<char> {
    seq!['"'] + json_escape(s) + seq!['"']
}

/// A JSON array of the given element texts, in compact form.
pub open spec fn json_array(items: Seq<Seq<char>>) -> Seq<char> {
    seq!['['] + join(items, seq![',']) + seq![']']
}

/// One `"key":value` member of a JSON object.
pub open spec fn json_member(member: (Seq<char>, Seq<char>)) -> Seq<char> {
    json_string(member.0) + seq![':'] + member.1
}

/// A JSON object of the given keys and value texts, in the order given, in compact form.
pub open spec fn json_object(members: Seq<(Seq<char>, Seq<char>)>) -> Seq<char> {
    seq!['{'] + join(members.map_values(|m: (Seq<char>, Seq<char>)| json_member(m)), seq![',']) + seq!['}']
}

#[verifier::external_type_specification]
#[verifier::external_body]
pub struct ExJsonError(serde_json::Error);

/// Calls `serde_json::to_string` on a string slice. Claimed: the call succeeds (a string
/// is written into a `Vec` writer, which cannot fail) and gives `s` as a JSON string
/// literal with serde_json's escape table: `"` and `\` escaped, `\b \t \n \f \r` by their
/// short forms, the other characters below U+0020 as `\u00xx` with lower-case hex digits,
/// every other character unchanged.
#[verifier::external_body]
fn serde_json_string(s: &str) -> (r: Result<String, serde_json::Error>)
    ensures
        r is Ok,
        r.unwrap()@ == json_string(s@),
{
    serde_json::to_string(s)
}

/// Writes `s` as a JSON string literal.
pub fn json_quote(s: &str) -> (r: String)
    ensures
        r@ == json_string(s@),
{
    match serde_json_string(s) {
        Ok(q) => q,
        // never taken: writing a string into memory does not fail
        Err(_) => String::new(),
    }
}

/// Writes a JSON array of the given element texts.
pub fn json_array_text(items: &Vec<String>) -> (r: String)
    ensures
        r@ == json_array(items@.map_values(|v: String| v@)),
{
    let inner = join_strings(items, ",");
    proof {
        reveal_strlit(",");
        assert(","@ =~= seq![',']);
    }
    let mut r = String::from_str("[");
    proof {
        reveal_strlit("[");
        assert("["@ =~= seq!['[']);
        reveal_strlit("]");
        assert("]"@ =~= seq![']']);
    }
    r.append(inner.as_str());
    r.append("]");
    assert(r@ =~= json_array(items@.map_values(|v: String| v@)));
    r
}

/// Writes a JSON object whose members are the given keys and value texts, in order.
pub fn json_object_text(members: &Vec<(String, String)>) -> (r: String)
    ensures
        r@ == json_object(members@.map_values(|m: (String, String)| (m.0@, m.1@))),
{
    let ghost mv = members@.map_values(|m: (String, String)| (m.0@, m.1@));
    let mut texts: Vec<String> = Vec::new();
    let mut i: usize = 0;
    while i < members.len()
        invariant
            i <= members.len(),
            mv == members@.map_values(|m: (String, String)| (m.0@, m.1@)),
            texts@.len() == i,
            forall|j: int| 0 <= j < i ==> #[trigger] texts@[j]@ == json_member(mv[j]),
        decreases members.len() - i,
    {
        proof {
            reveal_strlit(":");
            assert(":"@ =~= seq![':']);
        }
        let mut t = json_quote(members[i].0.as_str());
        t.append(":");
        t.append(members[i].1.as_str());
        assert(mv[i as int] == (members@[i as int].0@, members@[i as int].1@));
        assert(t@ =~= json_member(mv[i as int]));
        texts.push(t);
        i = i + 1;
    }
    let inner = join_strings(&texts, ",");
    assert(texts@.map_values(|v: String| v@) =~= mv.map_values(|m: (Seq<char>, Seq<char>)| json_member(m)));
    proof {
        reveal_strlit(",");
        assert(","@ =~= seq![',']);
        reveal_strlit("{");
        assert("{"@ =~= seq!['{']);
        reveal_strlit("}");
        assert("}"@ =~= seq!['}']);
    }
    let mut r = String::from_str("{");
    r.append(inner.as_str());
    r.append("}");
    assert(r@ =~= json_object(mv));
    r
}

/// Lower-case hexadecimal notation of `bytes`, two digits per byte, high nibble first.
pub open spec fn hex_lower(bytes: Seq<u8>) -> Seq<char>
    decreases bytes.len(),
{
    if bytes.len() == 0 {
        seq![]
    } else {
        seq![hex_digit((bytes[0] / 16) as nat), hex_digit((bytes[0] % 16) as nat)] + hex_lower(
            bytes.drop_first(),
        )
    }
}

/// Calls `hex::encode`. Claimed: each byte becomes two lower-case hex digits, high
/// nibble first, in the order of the bytes (the crate's `HEX_CHARS_LOWER` table).
#[verifier::external_body]
pub(crate) fn hex_encode(bytes: &[u8]) -> (r: String)
    ensures
        r@ == hex_lower(bytes@),
{
    hex::encode(bytes)
}

/// The character that stands for the 6-bit value `v` in the standard base64 alphabet.
pub open spec fn base64_char(v: int) -> char {
    if v < 26 {
        (v + 65) as char
    } else if v < 52 {
        (v + 71) as char
    } else if v < 62 {
        (v - 4) as char
    } else if v == 62 {
        '+'
    } else {
        '/'
    }
}

/// Standard base64 (RFC 4648 alphabet, `=` padding) of `bytes`: every group of three
/// bytes becomes four characters; a last group of one or two bytes is padded.
pub open spec fn base64_standard(bytes: Seq<u8>) -> Seq<char>
    decreases bytes.len(),
{
    if bytes.len() == 0 {
        seq![]
    } else if bytes.len() == 1 {
        let b0 = bytes[0] as int;
        seq![base64_char(b0 / 4), base64_char((b0 % 4) * 16), '=', '=']
    } else if bytes.len() == 2 {
        let b0 = bytes[0] as int;
        let b1 = bytes[1] as int;
        seq![
            base64_char(b0 / 4),
            base64_char((b0 % 4) * 16 + b1 / 16),
            base64_char((b1 % 16) * 4),
            '=',
        ]
    } else {
        let b0 = bytes[0] as int;
        let b1 = bytes[1] as int;
        let b2 = bytes[2] as int;
        seq![
            base64_char(b0 / 4),
            base64_char((b0 % 4) * 16 + b1 / 16),
            base64_char((b1 % 16) * 4 + b2 / 64),
            base64_char(b2 % 64),
        ] + base64_standard(bytes.skip(3))
    }
}

/// Calls `base64::prelude::BASE64_STANDARD.encode`. Claimed: the standard alphabet with
/// `=` padding, as the crate's `STANDARD` engine is configured. The crate panics when the
/// encoded length does not fit in a `usize`; `requires` leaves that out.
#[verifier::external_body]
pub(crate) fn base64_encode(bytes: &[u8]) -> (r: String)
    requires
        bytes.len() / 3 * 4 + 4 <= usize::MAX,
    ensures
        r@ == base64_standard(bytes@),
{
    base64::prelude::BASE64_STANDARD.encode(bytes)
}

/// The length of the base64 text of `n` bytes.
pub open spec fn base64_len(n: nat) -> nat {
    4 * ((n + 2) / 3)
}

/// Base64 text is ASCII and four characters long for every started group of three bytes.
pub proof fn lemma_base64_shape(bytes: Seq<u8>)
    ensures
        base64_standard(bytes).len() == base64_len(bytes.len()),
        vstd::utf8::is_ascii_chars(base64_standard(bytes)),
    decreases bytes.len(),
{
    if bytes.len() > 2 {
        lemma_base64_shape(bytes.skip(3));
        let head = base64_standard(bytes).take(4);
        assert(base64_standard(bytes) =~= head + base64_standard(bytes.skip(3)));
    }
}

/// The unsigned number that `bytes` encode big-endian.
pub open spec fn be_value(bytes: Seq<u8>) -> nat
    decreases bytes.len(),
{
    if bytes.len() == 0 {
        0
    } else {
        be_value(bytes.drop_last()) * 256 + bytes.last() as nat
    }
}

/// `n` zero bytes.
pub open spec fn zeros(n: nat) -> Seq<u8> {
    Seq::new(n, |i: int| 0u8)
}

/// Zero bytes in front of a big-endian number leave its value unchanged.
pub proof fn lemma_leading_zeros_keep_value(n: nat, bytes: Seq<u8>)
    ensures
        be_value(zeros(n) + bytes) == be_value(bytes),
    decreases bytes.len(), n,
{
    if bytes.len() == 0 {
        if n > 0 {
            assert((zeros(n) + bytes).drop_last() =~= zeros((n - 1) as nat) + bytes);
            lemma_leading_zeros_keep_value((n - 1) as nat, bytes);
        } else {
            assert(zeros(n) + bytes =~= bytes);
        }
    } else {
        assert((zeros(n) + bytes).drop_last() =~= zeros(n) + bytes.drop_last());
        lemma_leading_zeros_keep_value(n, bytes.drop_last());
    }
}

/// Two byte strings of one length that encode the same number are equal.
pub proof fn lemma_be_value_injective(a: Seq<u8>, b: Seq<u8>)
    requires
        a.len() == b.len(),
        be_value(a) == be_value(b),
    ensures
        a == b,
    decreases a.len(),
{
    if a.len() > 0 {
        let x = be_value(a.drop_last());
        let y = be_value(b.drop_last());
        let p = a.last() as int;
        let q = b.last() as int;
        assert(x * 256 + p == y * 256 + q);
        if x < y {
            assert(x * 256 + p < y * 256 + q);
        } else if x > y {
            assert(x * 256 + p > y * 256 + q);
        }
        lemma_be_value_injective(a.drop_last(), b.drop_last());
        assert(a =~= a.drop_last().push(a.last()));
        assert(b =~= b.drop_last().push(b.last()));
    } else {
        assert(a =~= b);
    }
}

/// `bytes` preceded by zero bytes up to `width` bytes in all.
pub fn pad_left(bytes: &[u8], width: usize) -> (r: Vec<u8>)
    requires
        bytes@.len() <= width,
    ensures
        r@ == zeros((width - bytes@.len()) as nat) + bytes@,
{
    let fill = width - bytes.len();
    let mut r: Vec<u8> = Vec::new();
    let mut i: usize = 0;
    while i < fill
        invariant
            i <= fill,
            r@ == zeros(i as nat),
        decreases fill - i,
    {
        r.push(0u8);
        i = i + 1;
        assert(r@ =~= zeros(i as nat));
    }
    let mut j: usize = 0;
    while j < bytes.len()
        invariant
            j <= bytes.len(),
            fill == width - bytes@.len(),
            r@ == zeros(fill as nat) + bytes@.take(j as int),
        decreases bytes.len() - j,
    {
        r.push(bytes[j]);
        j = j + 1;
        assert(r@ =~= zeros(fill as nat) + bytes@.take(j as int));
    }
    assert(bytes@.take(bytes.len() as int) =~= bytes@);
    r
}

/// Hex text is ASCII and two characters long per byte.
pub proof fn lemma_hex_shape(bytes: Seq<u8>)
    ensures
        hex_lower(bytes).len() == 2 * bytes.len(),
        vstd::utf8::is_ascii_chars(hex_lower(bytes)),
    decreases bytes.len(),
{
    if bytes.len() > 0 {
        lemma_hex_shape(bytes.drop_first());
        let head = seq![hex_digit((bytes[0] / 16) as nat), hex_digit((bytes[0] % 16) as nat)];
        assert(hex_lower(bytes) =~= head + hex_lower(bytes.drop_first()));
        assert forall|i: int| 0 <= i < hex_lower(bytes).len() implies '\0' <= #[trigger] hex_lower(bytes)[i] <= '\u{7f}' by {
            if i >= 2 {
                assert(hex_lower(bytes)[i] == hex_lower(bytes.drop_first())[i - 2]);
            }
        }
    }
}

/// The UTF-8 encoding of a concatenation is the concatenation of the encodings.
pub proof fn lemma_encode_utf8_concat(a: Seq<char>, b: Seq<char>)
    ensures
        encode_utf8(a + b) == encode_utf8(a) + encode_utf8(b),
    decreases a.len(),
{
    if a.len() == 0 {
        assert(a + b =~= b);
        assert(encode_utf8(a) + encode_utf8(b) =~= encode_utf8(b));
    } else {
        assert((a + b).drop_first() =~= a.drop_first() + b);
        assert((a + b)[0] == a[0]);
        lemma_encode_utf8_concat(a.drop_first(), b);
        let head = vstd::utf8::encode_scalar(a[0] as u32);
        assert(head + (encode_utf8(a.drop_first()) + encode_utf8(b)) =~= (head + encode_utf8(a.drop_first())) + encode_utf8(b));
    }
}

} // verus!
