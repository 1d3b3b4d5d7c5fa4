//! ASCII text fields of NVMe data structures (serial number, model number,
//! firmware revision): decoded as UTF-8, cleared of trailing NUL padding and
//! of surrounding white space.
use vstd::prelude::*;
use vstd::utf8::{
    decode_utf8, encode_utf8, encode_utf8_decode_utf8, encode_utf8_valid_utf8, is_ascii_chars,
    is_ascii_chars_encode_utf8, valid_utf8,
};

verus! {

/// Unicode's `White_Space` property, which `char::is_whitespace` tests.
pub open spec fn is_white_space(c: char) -> bool {
    let v = c as u32;
    ||| 0x09 <= v <= 0x0D
    ||| v == 0x20
    ||| v == 0x85
    ||| v == 0xA0
    ||| v == 0x1680
    ||| 0x2000 <= v <= 0x200A
    ||| v == 0x2028
    ||| v == 0x2029
    ||| v == 0x202F
    ||| v == 0x205F
    ||| v == 0x3000
}

/// `s` with every trailing `'\0'` removed.
pub open spec fn strip_trailing_nuls(s: Seq<char>) -> Seq<char>
    decreases s.len(),
{
    if s.len() > 0 && s.last() == '\0' {
        strip_trailing_nuls(s.drop_last())
    } else {
        s
    }
}

/// `s` with its trailing white space removed.
pub open spec fn trim_end_white(s: Seq<char>) -> Seq<char>
    decreases s.len(),
{
    if s.len() > 0 && is_white_space(s.last()) {
        trim_end_white(s.drop_last())
    } else {
        s
    }
}

/// `s` with its leading white space removed.
pub open spec fn trim_start_white(s: Seq<char>) -> Seq<char>
    decreases s.len(),
{
    if s.len() > 0 && is_white_space(s[0]) {
        trim_start_white(s.drop_first())
    } else {
        s
    }
}

/// The text of a padded field: trailing NULs are dropped first, then the
/// white space on both ends.
pub open spec fn field_text(s: Seq<char>) -> Seq<char> {
    trim_start_white(trim_end_white(strip_trailing_nuls(s)))
}

/// `t` is the cleaned text of the field whose bytes are `bytes`: the
/// cleaning of their lossy decoding, which for valid UTF-8 is the cleaning of
/// their plain decoding.
pub open spec fn is_field_text_of(t: Seq<char>, bytes: Seq<u8>) -> bool {
    &&& t == field_text(utf8_lossy(bytes))
    &&& valid_utf8(bytes) ==> t == field_text(decode_utf8(bytes))
}

/// The bytes of a C `char` array, each reinterpreted as unsigned.
pub open spec fn unsigned_bytes(s: Seq<i8>) -> Seq<u8> {
    s.map_values(|b: i8| b as u8)
}

/// What `String::from_utf8_lossy` makes of `bytes`: every invalid sequence
/// becomes U+FFFD.
pub uninterp spec fn utf8_lossy(bytes: Seq<u8>) -> Seq<char>;

/// Calls `String::from_utf8_lossy`. Its result is named `utf8_lossy`; the
/// contract adds what the std documentation promises of valid input: the
/// text is the decoding of the bytes. What replaces each invalid sequence is
/// left unsaid.
#[verifier::external_body]
fn decode_utf8_lossy(bytes: &[u8]) -> (s: String)
    ensures
        s@ == utf8_lossy(bytes@),
        valid_utf8(bytes@) ==> s@ == decode_utf8(bytes@),
{
    String::from_utf8_lossy(bytes).into_owned()
}

/// Tests Unicode's `White_Space` property, as `char::is_whitespace` does.
pub fn char_is_white_space(c: char) -> (b: bool)
    ensures
        b == is_white_space(c),
{
    let v = c as u32;
    (0x09 <= v && v <= 0x0D) || v == 0x20 || v == 0x85 || v == 0xA0 || v == 0x1680 || (0x2000 <= v
        && v <= 0x200A) || v == 0x2028 || v == 0x2029 || v == 0x202F || v == 0x205F || v == 0x3000
}

/// Cleans decoded field text: drops trailing NULs, then surrounding white space.
pub fn trim_ascii_field(text: &str) -> (r: String)
    ensures
        r@ == field_text(text@),
{
    let n = text.unicode_len();
    let ghost s = text@;
    let mut end: usize = n;
    assert(s.subrange(0, n as int) =~= s);
    while end > 0 && text.get_char(end - 1) == '\0'
        invariant
            end <= n,
            n == s.len(),
            s == text@,
            strip_trailing_nuls(s) == strip_trailing_nuls(s.subrange(0, end as int)),
        decreases end,
    {
        proof {
            assert(s.subrange(0, end as int).drop_last() =~= s.subrange(0, end - 1));
        }
        end = end - 1;
    }
    let ghost stripped = s.subrange(0, end as int);
    assert(strip_trailing_nuls(s) == stripped);
    while end > 0 && char_is_white_space(text.get_char(end - 1))
        invariant
            end <= n,
            n == s.len(),
            s == text@,
            end <= stripped.len(),
            trim_end_white(stripped) == trim_end_white(s.subrange(0, end as int)),
        decreases end,
    {
        proof {
            assert(s.subrange(0, end as int).drop_last() =~= s.subrange(0, end - 1));
        }
        end = end - 1;
    }
    let ghost trimmed_end = s.subrange(0, end as int);
    assert(trim_end_white(stripped) == trimmed_end);
    let mut start: usize = 0;
    while start < end && char_is_white_space(text.get_char(start))
        invariant
            start <= end <= n,
            n == s.len(),
            s == text@,
            trimmed_end == s.subrange(0, end as int),
            trim_start_white(trimmed_end) == trim_start_white(s.subrange(start as int, end as int)),
        decreases end - start,
    {
        proof {
            assert(s.subrange(start as int, end as int).drop_first() =~= s.subrange(
                start + 1,
                end as int,
            ));
        }
        start = start + 1;
    }
    assert(trim_start_white(trimmed_end) == s.subrange(start as int, end as int));
    let piece = text.substring_char(start, end);
    piece.to_owned()
}

/// Decodes a padded text field: lossy UTF-8 decoding, then `trim_ascii_field`.
pub fn decode_ascii_field(bytes: &[u8]) -> (r: String)
    ensures
        is_field_text_of(r@, bytes@),
{
    let text = decode_utf8_lossy(bytes);
    trim_ascii_field(text.as_str())
}

/// Parses an ASCII field given as a C `char` array: each byte is read as
/// unsigned, then the field is decoded as `decode_ascii_field` does.
pub fn parse_ascii_field(bytes: &[i8]) -> (r: String)
    ensures
        is_field_text_of(r@, unsigned_bytes(bytes@)),
{
    let mut unsigned: Vec<u8> = Vec::new();
    let mut i: usize = 0;
    while i < bytes.len()
        invariant
            i <= bytes@.len(),
            unsigned@ =~= unsigned_bytes(bytes@.subrange(0, i as int)),
        decreases bytes@.len() - i,
    {
        unsigned.push(bytes[i] as u8);
        i = i + 1;
    }
    proof {
        assert(bytes@.subrange(0, bytes@.len() as int) =~= bytes@);
    }
    decode_ascii_field(unsigned.as_slice())
}

/// Converts a 16-byte C `char` array (a GUID) to unsigned bytes.
pub fn convert_cchar_to_u8_array_16(bytes: &[i8; 16]) -> (r: [u8; 16])
    ensures
        r@ == unsigned_bytes(bytes@),
{
    let mut r: [u8; 16] = [0u8; 16];
    let mut i: usize = 0;
    while i < 16
        invariant
            i <= 16,
            r@.len() == 16,
            bytes@.len() == 16,
            forall|j: int| 0 <= j < i ==> r@[j] == bytes@[j] as u8,
        decreases 16 - i,
    {
        r[i] = bytes[i] as u8;
        i = i + 1;
    }
    proof {
        assert(r@ =~= unsigned_bytes(bytes@));
    }
    r
}

/// Cleaning is idempotent on text that does not end in a NUL: such text has
/// nothing left to remove.
pub proof fn lemma_field_text_idempotent(s: Seq<char>)
    requires
        field_text(s).len() > 0 ==> field_text(s).last() != '\0',
    ensures
        field_text(field_text(s)) == field_text(s),
{
    let t = field_text(s);
    lemma_field_text_trimmed(s);
    if t.len() > 0 {
        assert(strip_trailing_nuls(t) == t);
        assert(trim_end_white(t) == t);
        assert(trim_start_white(t) == t);
    } else {
        assert(strip_trailing_nuls(t) == t);
    }
}

/// Parsing a parsed field again gives it back: the field text, written out
/// as UTF-8 bytes in a C `char` array, is valid UTF-8 and cleans to itself,
/// unless it ends in a NUL.
pub proof fn lemma_parse_ascii_field_idempotent(bytes: Seq<i8>, again: Seq<i8>)
    requires
        field_text(utf8_lossy(unsigned_bytes(bytes))).len() > 0 ==> field_text(
            utf8_lossy(unsigned_bytes(bytes)),
        ).last() != '\0',
        again == encode_utf8(field_text(utf8_lossy(unsigned_bytes(bytes)))).map_values(
            |b: u8| b as i8,
        ),
    ensures
        valid_utf8(unsigned_bytes(again)),
        field_text(decode_utf8(unsigned_bytes(again))) == field_text(
            utf8_lossy(unsigned_bytes(bytes)),
        ),
{
    let r = field_text(utf8_lossy(unsigned_bytes(bytes)));
    let enc = encode_utf8(r);
    assert forall|i: int| 0 <= i < enc.len() implies #[trigger] unsigned_bytes(again)[i] == enc[i] by {
        let b = enc[i];
        assert((b as i8) as u8 == b) by (bit_vector);
    }
    assert(unsigned_bytes(again) =~= enc);
    encode_utf8_valid_utf8(r);
    encode_utf8_decode_utf8(r);
    lemma_field_text_idempotent(utf8_lossy(unsigned_bytes(bytes)));
}

/// The code points of Unicode's `White_Space` property (Unicode 15, PropList.txt).
pub open spec fn unicode_white_space() -> Set<u32> {
    set![
        0x0009u32, 0x000A, 0x000B, 0x000C, 0x000D, 0x0020, 0x0085, 0x00A0, 0x1680, 0x2000, 0x2001,
        0x2002, 0x2003, 0x2004, 0x2005, 0x2006, 0x2007, 0x2008, 0x2009, 0x200A, 0x2028, 0x2029,
        0x202F, 0x205F, 0x3000,
    ]
}

/// What counts as white space is exactly Unicode's `White_Space` set; among
/// ASCII characters, exactly tab, line feed, vertical tab, form feed,
/// carriage return and space. No letter, digit or NUL is white space.
pub proof fn lemma_white_space_is_unicode_white_space(c: char)
    ensures
        is_white_space(c) <==> unicode_white_space().contains(c as u32),
        (c as u32) < 0x80 ==> (is_white_space(c) <==> (c == ' ' || c == '\t' || c == '\n'
            || c == '\u{0B}' || c == '\u{0C}' || c == '\r')),
        ('0' <= c <= '9' || 'a' <= c <= 'z' || 'A' <= c <= 'Z' || c == '\0') ==> !is_white_space(c),
{
    let v = c as u32;
    if 0x2000 <= v <= 0x200A {
        assert(unicode_white_space().contains(v));
    }
}

/// Cleaning `s` keeps `[a, b)`: after `e` there are only NULs (and `e` is
/// the first such place), `[b, e)` and `[0, a)` are Unicode white space, and
/// the kept text neither starts nor ends with it.
pub open spec fn cleans_to_range(s: Seq<char>, a: int, b: int, e: int) -> bool {
    &&& 0 <= a <= b <= e <= s.len()
    &&& field_text(s) == s.subrange(a, b)
    &&& forall|k: int| e <= k < s.len() ==> #[trigger] s[k] == '\0'
    &&& e > 0 ==> s[e - 1] != '\0'
    &&& forall|k: int|
        b <= k < e ==> unicode_white_space().contains(#[trigger] s[k] as u32)
    &&& b > a ==> !unicode_white_space().contains(s[b - 1] as u32)
    &&& forall|k: int| 0 <= k < a ==> unicode_white_space().contains(#[trigger] s[k] as u32)
    &&& a < b ==> !unicode_white_space().contains(s[a] as u32)
    &&& a == b ==> forall|k: int|
        0 <= k < e ==> unicode_white_space().contains(#[trigger] s[k] as u32)
}

/// Cleaning a field, characterized without the recursive definitions: the
/// text ends at `e`, after which there are only NULs (and `e` is the first
/// such place); the text kept is `[a, b)`, where `[b, e)` and `[0, a)` are
/// Unicode white space and the kept text neither starts nor ends with it.
pub proof fn lemma_field_text_characterized(s: Seq<char>)
    ensures
        exists|a: int, b: int, e: int| #[trigger] cleans_to_range(s, a, b, e),
{
    let e = lemma_strip_prefix(s);
    let t = s.subrange(0, e);
    let b = lemma_trim_end_prefix(t);
    assert(t.subrange(0, b) =~= s.subrange(0, b));
    let u = s.subrange(0, b);
    let a = lemma_trim_start_suffix_at(u);
    assert(u.subrange(a, u.len() as int) =~= s.subrange(a, b));
    assert forall|k: int| b <= k < e implies unicode_white_space().contains(#[trigger] s[k] as u32) by {
        assert(t[k] == s[k]);
        lemma_white_space_is_unicode_white_space(s[k]);
    }
    if b > a {
        assert(t[b - 1] == s[b - 1]);
        lemma_white_space_is_unicode_white_space(s[b - 1]);
    }
    assert forall|k: int| 0 <= k < a implies unicode_white_space().contains(#[trigger] s[k] as u32) by {
        assert(u[k] == s[k]);
        lemma_white_space_is_unicode_white_space(s[k]);
    }
    if a < b {
        assert(u[a] == s[a]);
        lemma_white_space_is_unicode_white_space(s[a]);
    }
    if a == b {
        assert forall|k: int| 0 <= k < e implies unicode_white_space().contains(#[trigger] s[k] as u32) by {
            if k < b {
                assert(u[k] == s[k]);
            } else {
                assert(t[k] == s[k]);
            }
            lemma_white_space_is_unicode_white_space(s[k]);
        }
    }
    assert(field_text(s) == s.subrange(a, b));
    assert(cleans_to_range(s, a, b, e));
}

/// ASCII bytes are valid UTF-8 and decode to the characters with the same codes.
pub proof fn lemma_ascii_bytes_decode(bytes: Seq<u8>)
    requires
        forall|i: int| 0 <= i < bytes.len() ==> #[trigger] bytes[i] < 0x80,
    ensures
        valid_utf8(bytes),
        decode_utf8(bytes) == bytes.map_values(|b: u8| b as char),
{
    let cs = bytes.map_values(|b: u8| b as char);
    assert(is_ascii_chars(cs));
    is_ascii_chars_encode_utf8(cs);
    assert forall|i: int| 0 <= i < bytes.len() implies #[trigger] encode_utf8(cs)[i] == bytes[i] by {
        assert(cs[i] == bytes[i] as char);
        assert(cs[i] as u8 == encode_utf8(cs)[i]);
    }
    assert(encode_utf8(cs) =~= bytes);
    encode_utf8_valid_utf8(cs);
    encode_utf8_decode_utf8(cs);
}

/// Trimmed field text neither begins nor ends with white space.
pub proof fn lemma_field_text_trimmed(s: Seq<char>)
    ensures
        field_text(s).len() > 0 ==> !is_white_space(field_text(s)[0]),
        field_text(s).len() > 0 ==> !is_white_space(field_text(s).last()),
{
    let t = trim_end_white(strip_trailing_nuls(s));
    lemma_trim_end_no_white(strip_trailing_nuls(s));
    lemma_trim_start_suffix(t);
}

/// Cleaning only removes characters from the two ends: the field text is a
/// contiguous piece of the decoded text.
pub proof fn lemma_field_text_is_slice(s: Seq<char>)
    ensures
        exists|a: int, b: int| 0 <= a <= b <= s.len() && field_text(s) == s.subrange(a, b),
{
    let (_, e2, a) = lemma_field_text_bounds(s);
    assert(field_text(s) == s.subrange(a, e2));
}

proof fn lemma_field_text_bounds(s: Seq<char>) -> (r: (int, int, int))
    ensures
        0 <= r.2 <= r.1 <= r.0 <= s.len(),
        strip_trailing_nuls(s) == s.subrange(0, r.0),
        trim_end_white(strip_trailing_nuls(s)) == s.subrange(0, r.1),
        field_text(s) == s.subrange(r.2, r.1),
{
    let e1 = lemma_strip_prefix(s);
    let t = s.subrange(0, e1);
    let e2 = lemma_trim_end_prefix(t);
    assert(t.subrange(0, e2) =~= s.subrange(0, e2));
    let u = s.subrange(0, e2);
    let a = lemma_trim_start_suffix_at(u);
    assert(u.subrange(a, u.len() as int) =~= s.subrange(a, e2));
    (e1, e2, a)
}

proof fn lemma_strip_prefix(s: Seq<char>) -> (e: int)
    ensures
        0 <= e <= s.len(),
        strip_trailing_nuls(s) == s.subrange(0, e),
        forall|k: int| e <= k < s.len() ==> #[trigger] s[k] == '\0',
        e > 0 ==> s[e - 1] != '\0',
    decreases s.len(),
{
    if s.len() > 0 && s.last() == '\0' {
        let e = lemma_strip_prefix(s.drop_last());
        assert(s.drop_last().subrange(0, e) =~= s.subrange(0, e));
        assert forall|k: int| e <= k < s.len() implies #[trigger] s[k] == '\0' by {
            if k < s.len() - 1 {
                assert(s.drop_last()[k] == s[k]);
            }
        }
        if e > 0 {
            assert(s.drop_last()[e - 1] == s[e - 1]);
        }
        e
    } else {
        assert(s.subrange(0, s.len() as int) =~= s);
        s.len() as int
    }
}

proof fn lemma_trim_end_prefix(s: Seq<char>) -> (e: int)
    ensures
        0 <= e <= s.len(),
        trim_end_white(s) == s.subrange(0, e),
        forall|k: int| e <= k < s.len() ==> is_white_space(#[trigger] s[k]),
        e > 0 ==> !is_white_space(s[e - 1]),
    decreases s.len(),
{
    if s.len() > 0 && is_white_space(s.last()) {
        let e = lemma_trim_end_prefix(s.drop_last());
        assert(s.drop_last().subrange(0, e) =~= s.subrange(0, e));
        assert forall|k: int| e <= k < s.len() implies is_white_space(#[trigger] s[k]) by {
            if k < s.len() - 1 {
                assert(s.drop_last()[k] == s[k]);
            }
        }
        if e > 0 {
            assert(s.drop_last()[e - 1] == s[e - 1]);
        }
        e
    } else {
        assert(s.subrange(0, s.len() as int) =~= s);
        s.len() as int
    }
}

proof fn lemma_trim_start_suffix_at(s: Seq<char>) -> (a: int)
    ensures
        0 <= a <= s.len(),
        trim_start_white(s) == s.subrange(a, s.len() as int),
        forall|k: int| 0 <= k < a ==> is_white_space(#[trigger] s[k]),
        a < s.len() ==> !is_white_space(s[a]),
    decreases s.len(),
{
    if s.len() > 0 && is_white_space(s[0]) {
        let a = lemma_trim_start_suffix_at(s.drop_first());
        assert(s.drop_first().subrange(a, s.drop_first().len() as int) =~= s.subrange(a + 1, s.len() as int));
        assert forall|k: int| 0 <= k < a + 1 implies is_white_space(#[trigger] s[k]) by {
            if k > 0 {
                assert(s.drop_first()[k - 1] == s[k]);
            }
        }
        if a + 1 < s.len() {
            assert(s.drop_first()[a] == s[a + 1]);
        }
        a + 1
    } else {
        assert(s.subrange(0, s.len() as int) =~= s);
        0
    }
}

proof fn lemma_trim_end_no_white(s: Seq<char>)
    ensures
        trim_end_white(s).len() > 0 ==> !is_white_space(trim_end_white(s).last()),
    decreases s.len(),
{
    if s.len() > 0 && is_white_space(s.last()) {
        lemma_trim_end_no_white(s.drop_last());
    }
}

proof fn lemma_trim_start_suffix(s: Seq<char>)
    ensures
        trim_start_white(s).len() > 0 ==> !is_white_space(trim_start_white(s)[0]),
        trim_start_white(s).len() > 0 ==> trim_start_white(s).last() == s.last(),
    decreases s.len(),
{
    if s.len() > 0 && is_white_space(s[0]) {
        lemma_trim_start_suffix(s.drop_first());
    }
}

} // verus!
