use crate::error::Error;
use crate::reader::{i32_le, ByteReader};
use encoding_rs::{SHIFT_JIS, UTF_16LE, UTF_8};
use vstd::prelude::*;
use vstd::utf8::{
    char_is_scalar, char_u32_cast, decode_utf8, encode_utf8, encode_utf8_decode_utf8,
    encode_utf8_valid_utf8, valid_utf8,
};

verus! {

/// The encoding declared for a length-prefixed text field.
#[derive(Debug, Clone, Copy, PartialEq, Eq)]
pub enum TextEncoding {
    UTF8,
    UTF16LE,
}

/// What the Shift-JIS decoder makes of `b`: the text, with malformed
/// sequences replaced, and whether it met one.
pub uninterp spec fn shift_jis_decoded(b: Seq<u8>) -> (Seq<char>, bool);

/// Relies on `encoding_rs::Encoding::decode_without_bom_handling` on
/// `UTF_8`: it decodes UTF-8 as it stands, a leading U+FEFF included, and
/// reports malformed input exactly where the bytes are not valid UTF-8.
#[verifier::external_body]
fn decode_utf8_exact(b: &[u8]) -> (r: (String, bool))
    ensures
        r.1 <==> !valid_utf8(b@),
        !r.1 ==> r.0@ == decode_utf8(b@),
{
    let (text, malformed) = UTF_8.decode_without_bom_handling(b);
    (text.into_owned(), malformed)
}

/// A UTF-16 code unit as two little-endian bytes.
pub open spec fn unit_le(u: int) -> Seq<u8> {
    seq![(u % 256) as u8, (u / 256) as u8]
}

/// The UTF-16LE bytes of one character: one code unit below U+10000, else
/// a surrogate pair.
pub open spec fn utf16le_char(c: char) -> Seq<u8> {
    let v = c as u32 as int;
    if v < 0x10000 {
        unit_le(v)
    } else {
        unit_le(0xD800 + (v - 0x10000) / 1024) + unit_le(0xDC00 + (v - 0x10000) % 1024)
    }
}

/// The UTF-16LE encoding of `s`.
pub open spec fn utf16le_encode(s: Seq<char>) -> Seq<u8>
    decreases s.len(),
{
    if s.len() == 0 {
        Seq::empty()
    } else {
        utf16le_char(s[0]) + utf16le_encode(s.drop_first())
    }
}

/// Relies on `encoding_rs::Encoding::decode_without_bom_handling` on
/// `UTF_16LE`: it decodes UTF-16LE as it stands, with no byte order mark
/// sniffed or stripped. The UTF-16LE encoding of a text decodes to that
/// text, and any other input (an odd length, an unpaired surrogate) is
/// reported malformed.
#[verifier::external_body]
fn decode_utf16le_exact(b: &[u8]) -> (r: (String, bool))
    ensures
        forall|s: Seq<char>| #[trigger] utf16le_encode(s) == b@ ==> r.0@ == s && !r.1,
        !(exists|s: Seq<char>| #[trigger] utf16le_encode(s) == b@) ==> r.1,
{
    let (text, malformed) = UTF_16LE.decode_without_bom_handling(b);
    (text.into_owned(), malformed)
}

/// Relies on `encoding_rs::Encoding::decode` on `SHIFT_JIS`: it sniffs a byte
/// order mark, then decodes, replacing malformed sequences and reporting
/// whether there were any. Empty input gives empty text.
#[verifier::external_body]
fn decode_shift_jis_sniffing(b: &[u8]) -> (r: (String, bool))
    ensures
        r.0@ == shift_jis_decoded(b@).0,
        r.1 == shift_jis_decoded(b@).1,
        b@.len() == 0 ==> r.0@.len() == 0 && !r.1,
{
    let (text, _, malformed) = SHIFT_JIS.decode(b);
    (text.into_owned(), malformed)
}

/// Relies on `std::str::from_utf8`: it accepts exactly the valid UTF-8
/// sequences, and the text is what they encode.
#[verifier::external_body]
fn utf8_strict(b: &[u8]) -> (r: Option<String>)
    ensures
        r is Some <==> valid_utf8(b@),
        r is Some ==> r->0@ == decode_utf8(b@),
{
    match std::str::from_utf8(b) {
        Ok(s) => Some(s.to_string()),
        Err(_) => None,
    }
}

/// The UTF-8 reading of `b`: its UTF-8 decoding, or `None` where `b` is
/// not valid UTF-8.
pub open spec fn utf8_text(b: Seq<u8>) -> Option<Seq<char>> {
    if valid_utf8(b) {
        Some(decode_utf8(b))
    } else {
        None
    }
}

/// The UTF-16LE reading of `b`: the text whose encoding `b` is, or `None`
/// where there is none.
pub open spec fn utf16le_text(b: Seq<u8>) -> Option<Seq<char>> {
    if exists|s: Seq<char>| #[trigger] utf16le_encode(s) == b {
        Some(choose|s: Seq<char>| #[trigger] utf16le_encode(s) == b)
    } else {
        None
    }
}

/// The strict reading of `b` in `encoding`: the text, or `None` where `b`
/// is malformed.
pub open spec fn decoded(encoding: TextEncoding, b: Seq<u8>) -> Option<Seq<char>> {
    match encoding {
        TextEncoding::UTF8 => utf8_text(b),
        TextEncoding::UTF16LE => utf16le_text(b),
    }
}

/// Whether a length-prefixed field at `p` fits in `b`: a 4-byte signed
/// length that is not negative, followed by that many bytes.
pub open spec fn text_fits(b: Seq<u8>, p: int) -> bool {
    &&& 0 <= p
    &&& p + 4 <= b.len()
    &&& 0 <= i32_le(b, p)
    &&& p + 4 + i32_le(b, p) <= b.len()
}

/// The bytes of the length-prefixed field at `p`, without the prefix.
pub open spec fn text_bytes(b: Seq<u8>, p: int) -> Seq<u8> {
    b.subrange(p + 4, p + 4 + i32_le(b, p))
}

/// Reads a length-prefixed text field and decodes it strictly: a malformed
/// sequence is an error, never replaced.
pub fn read_text(r: &mut ByteReader, encoding: TextEncoding) -> (res: Result<String, Error>)
    requires
        old(r).wf(),
    ensures
        final(r).wf(),
        final(r).bytes() == old(r).bytes(),
        !text_fits(old(r).bytes(), old(r).position()) ==> res == Err::<String, Error>(
            Error::UnexpectedEof,
        ),
        text_fits(old(r).bytes(), old(r).position()) ==> {
            let b = old(r).bytes();
            let p = old(r).position();
            let d = decoded(encoding, text_bytes(b, p));
            &&& final(r).advanced(old(r), 4 + i32_le(b, p))
            &&& d is None ==> res is Err && res->Err_0 is DecodeText
            &&& d is Some ==> res is Ok && res->Ok_0@ == d->0
        },
{
    let n = r.read_i32_le()?;
    if n < 0 {
        return Err(Error::UnexpectedEof);
    }
    let buf = r.read_exact(n as usize)?;
    let (text, malformed) = match encoding {
        TextEncoding::UTF8 => decode_utf8_exact(buf.as_slice()),
        TextEncoding::UTF16LE => decode_utf16le_exact(buf.as_slice()),
    };
    if malformed {
        return Err(Error::DecodeText("malformed text"));
    }
    Ok(text)
}

/// Text encoded as UTF-8 reads back as itself, a leading U+FEFF included.
pub proof fn lemma_utf8_round_trip(s: Seq<char>)
    ensures
        decoded(TextEncoding::UTF8, encode_utf8(s)) == Some(s),
{
    encode_utf8_valid_utf8(s);
    encode_utf8_decode_utf8(s);
}

proof fn lemma_unit_le(u: int)
    requires
        0 <= u < 0x10000,
    ensures
        unit_le(u).len() == 2,
        unit_le(u)[0] as int + 256 * unit_le(u)[1] as int == u,
{
    assert(0 <= u % 256 < 256 && 0 <= u / 256 < 256 && u % 256 + 256 * (u / 256) == u)
        by (nonlinear_arith)
        requires
            0 <= u < 0x10000,
    ;
}

/// The first code unit of a character's encoding tells its width, and the
/// encoding gives back the character.
proof fn lemma_utf16le_char(c: char)
    ensures
        ({
            let e = utf16le_char(c);
            let v = c as u32 as int;
            let u0 = e[0] as int + 256 * e[1] as int;
            &&& v < 0x10000 ==> e.len() == 2 && u0 == v && !(0xD800 <= u0 < 0xDC00)
            &&& v >= 0x10000 ==> e.len() == 4 && 0xD800 <= u0 < 0xDC00 && v == 0x10000 + (u0
                - 0xD800) * 1024 + (e[2] as int + 256 * e[3] as int - 0xDC00)
        }),
{
    broadcast use char_is_scalar;

    let v = c as u32 as int;
    if v < 0x10000 {
        lemma_unit_le(v);
    } else {
        let w = v - 0x10000;
        assert(0 <= w / 1024 < 1024 && 0 <= w % 1024 < 1024 && w == (w / 1024) * 1024 + w % 1024)
            by (nonlinear_arith)
            requires
                0 <= w < 0x100000,
        ;
        lemma_unit_le(0xD800 + w / 1024);
        lemma_unit_le(0xDC00 + w % 1024);
    }
}

/// Two texts with the same UTF-16LE encoding are the same text.
proof fn lemma_utf16le_injective(s: Seq<char>, t: Seq<char>)
    requires
        utf16le_encode(s) == utf16le_encode(t),
    ensures
        s == t,
    decreases s.len(),
{
    if s.len() == 0 {
        if t.len() > 0 {
            lemma_utf16le_char(t[0]);
            assert(utf16le_encode(t).len() >= 2);
        }
        assert(s =~= t);
    } else {
        lemma_utf16le_char(s[0]);
        if t.len() == 0 {
            assert(utf16le_encode(s).len() >= 2);
        } else {
            lemma_utf16le_char(t[0]);
            let b = utf16le_encode(s);
            let es = utf16le_char(s[0]);
            let et = utf16le_char(t[0]);
            assert(b == es + utf16le_encode(s.drop_first()));
            assert(b == et + utf16le_encode(t.drop_first()));
            assert(b[0] == es[0] && b[1] == es[1] && b[0] == et[0] && b[1] == et[1]);
            if es.len() == 4 {
                assert(b[2] == es[2] && b[3] == es[3] && b[2] == et[2] && b[3] == et[3]);
            }
            assert(s[0] as u32 == t[0] as u32);
            char_u32_cast(s[0], s[0] as u32);
            char_u32_cast(t[0], t[0] as u32);
            assert(s[0] == t[0]);
            assert(utf16le_encode(s.drop_first()) =~= b.subrange(es.len() as int, b.len() as int));
            assert(utf16le_encode(t.drop_first()) =~= b.subrange(et.len() as int, b.len() as int));
            lemma_utf16le_injective(s.drop_first(), t.drop_first());
            assert(s =~= seq![s[0]] + s.drop_first());
            assert(t =~= seq![t[0]] + t.drop_first());
        }
    }
}

/// Text encoded as UTF-16LE reads back as itself, a leading U+FEFF
/// included.
pub proof fn lemma_utf16le_round_trip(s: Seq<char>)
    ensures
        decoded(TextEncoding::UTF16LE, utf16le_encode(s)) == Some(s),
{
    let b = utf16le_encode(s);
    assert(exists|t: Seq<char>| #[trigger] utf16le_encode(t) == b);
    let t = choose|t: Seq<char>| #[trigger] utf16le_encode(t) == b;
    lemma_utf16le_injective(s, t);
}

/// Bytes that are not valid UTF-8 are malformed as UTF-8, and bytes that
/// encode no text in UTF-16LE are malformed as UTF-16LE, whatever they open
/// with: reading them is a `DecodeText` error, never substituted text.
pub proof fn lemma_malformed_is_flagged(b: Seq<u8>)
    ensures
        !valid_utf8(b) ==> decoded(TextEncoding::UTF8, b) is None,
        !(exists|s: Seq<char>| #[trigger] utf16le_encode(s) == b) ==> decoded(
            TextEncoding::UTF16LE,
            b,
        ) is None,
{
}

/// The index of the first zero byte of `raw` at or after `i`, or its length
/// if there is none.
pub open spec fn nul_from(raw: Seq<u8>, i: int) -> int
    decreases raw.len() - i,
{
    if i >= raw.len() {
        raw.len() as int
    } else if raw[i] == 0 {
        i
    } else {
        nul_from(raw, i + 1)
    }
}

/// A fixed-width field cut at its first zero byte. What follows the zero
/// is padding, whatever its value.
pub open spec fn before_nul(raw: Seq<u8>) -> Seq<u8> {
    raw.subrange(0, nul_from(raw, 0))
}

/// The text of a fixed-width field: empty if the field is empty before its
/// first zero byte, else Shift-JIS if that decodes cleanly, else UTF-8 if
/// the bytes are valid UTF-8, else Shift-JIS with malformed sequences
/// replaced.
pub open spec fn fixed_text(raw: Seq<u8>) -> Seq<char> {
    let t = before_nul(raw);
    let sjis = shift_jis_decoded(t);
    if t.len() == 0 {
        Seq::empty()
    } else if !sjis.1 {
        sjis.0
    } else if valid_utf8(t) {
        decode_utf8(t)
    } else {
        sjis.0
    }
}

/// Reads a fixed-width, zero-terminated field of `size` bytes and decodes it
/// leniently (see `fixed_text`). Only a short input is an error.
pub fn read_fixed_text(r: &mut ByteReader, size: usize) -> (res: Result<String, Error>)
    requires
        old(r).wf(),
    ensures
        size <= old(r).remaining() ==> final(r).advanced(old(r), size as int) && res is Ok
            && res->Ok_0@ == fixed_text(
            old(r).bytes().subrange(old(r).position(), old(r).position() + size),
        ),
        size > old(r).remaining() ==> res == Err::<String, Error>(Error::UnexpectedEof)
            && final(r).advanced(old(r), 0),
{
    let mut raw = r.read_exact(size)?;
    let ghost whole = raw@;
    let mut end: usize = 0;
    while end < raw.len() && raw[end] != 0
        invariant
            raw@ == whole,
            end <= raw.len(),
            nul_from(whole, 0) == nul_from(whole, end as int),
        decreases raw.len() - end,
    {
        end = end + 1;
    }
    assert(nul_from(whole, end as int) == end);
    raw.truncate(end);
    assert(raw@ =~= before_nul(whole));
    let (sjis, malformed) = decode_shift_jis_sniffing(raw.as_slice());
    assert(raw@.len() == 0 ==> sjis@ =~= Seq::<char>::empty());
    if !malformed {
        return Ok(sjis);
    }
    match utf8_strict(raw.as_slice()) {
        Some(s) => Ok(s),
        None => Ok(sjis),
    }
}

/// A fixed-width field whose text is valid UTF-8 but not valid Shift-JIS
/// reads as its UTF-8 decoding.
pub proof fn lemma_fixed_text_utf8_fallback(raw: Seq<u8>)
    requires
        shift_jis_decoded(before_nul(raw)).1,
        valid_utf8(before_nul(raw)),
    ensures
        fixed_text(raw) == decode_utf8(before_nul(raw)),
{
}

} // verus!
