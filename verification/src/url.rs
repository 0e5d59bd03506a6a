//! Percent-encoding of URL components, and addresses below a base path.

use crate::text::has_prefix;
use vstd::prelude::*;
use vstd::utf8::{decode_utf8, encode_utf8, is_ascii_chars, valid_utf8};

verus! {

/// The bytes that stand for themselves in a URL component.
pub open spec fn unreserved(b: u8) -> bool {
    (0x30 <= b && b <= 0x39) || (0x41 <= b && b <= 0x5A) || (0x61 <= b && b <= 0x7A) || b == 0x2D || b
        == 0x2E || b == 0x5F || b == 0x7E
}

/// An upper-case hexadecimal digit.
pub open spec fn hex_char(d: int) -> char {
    if d < 10 {
        crate::text::digit_char(d)
    } else if d == 10 {
        'A'
    } else if d == 11 {
        'B'
    } else if d == 12 {
        'C'
    } else if d == 13 {
        'D'
    } else if d == 14 {
        'E'
    } else {
        'F'
    }
}

/// The percent-encoded form of a run of bytes.
pub open spec fn percent_encoded(bytes: Seq<u8>) -> Seq<char>
    decreases bytes.len(),
{
    if bytes.len() == 0 {
        Seq::empty()
    } else {
        let b = bytes[0];
        let head = if unreserved(b) {
            seq![b as char]
        } else {
            seq!['%', hex_char(b as int / 16), hex_char(b as int % 16)]
        };
        head + percent_encoded(bytes.subrange(1, bytes.len() as int))
    }
}

/// The value of a hexadecimal digit, upper or lower case.
pub open spec fn hex_value(b: u8) -> Option<int> {
    if 0x30 <= b && b <= 0x39 {
        Some(b - 0x30)
    } else if 0x41 <= b && b <= 0x46 {
        Some(b - 0x41 + 10)
    } else if 0x61 <= b && b <= 0x66 {
        Some(b - 0x61 + 10)
    } else {
        None
    }
}

/// The bytes that a percent-encoded text stands for. A `%` that two
/// hexadecimal digits do not follow stands for itself.
pub open spec fn percent_decoded(bytes: Seq<u8>) -> Seq<u8>
    decreases bytes.len(),
{
    if bytes.len() == 0 {
        Seq::empty()
    } else if bytes[0] == 0x25 && bytes.len() >= 3 && hex_value(bytes[1]) is Some && hex_value(
        bytes[2],
    ) is Some {
        seq![(hex_value(bytes[1])->0 * 16 + hex_value(bytes[2])->0) as u8] + percent_decoded(
            bytes.subrange(3, bytes.len() as int),
        )
    } else {
        seq![bytes[0]] + percent_decoded(bytes.subrange(1, bytes.len() as int))
    }
}

/// The characters of a percent-encoded text, where its bytes are UTF-8.
pub open spec fn decoded_text(s: Seq<char>) -> Option<Seq<char>> {
    let bytes = percent_decoded(encode_utf8(s));
    if valid_utf8(bytes) {
        Some(decode_utf8(bytes))
    } else {
        None
    }
}

/// `urlencoding::encode`: every UTF-8 byte of the text but letters, digits and
/// `-`, `.`, `_`, `~` becomes `%` and two upper-case hexadecimal digits.
#[verifier::external_body]
pub(crate) fn encode(data: &str) -> (r: String)
    ensures
        r@ == percent_encoded(encode_utf8(data@)),
{
    urlencoding::encode(data).into_owned()
}

/// `urlencoding::decode`: undoes the percent-encoding byte by byte, leaves
/// everything else (a `+` too) as it is, and fails where the bytes that come
/// out are not UTF-8.
#[verifier::external_body]
pub(crate) fn decode(data: &str) -> (r: Option<String>)
    ensures
        crate::text::opt_text(r) == decoded_text(data@),
{
    urlencoding::decode(data).ok().map(|text| text.into_owned())
}

/// An address that ends in a percent-encoded component.
pub open spec fn keyed_address(prefix: Seq<char>, key: Seq<char>) -> Seq<char> {
    prefix + percent_encoded(encode_utf8(key))
}

/// Puts a percent-encoded component behind a fixed address.
pub fn address_with(prefix: &str, key: &str) -> (r: String)
    ensures
        r@ == keyed_address(prefix@, key@),
{
    crate::text::cat2(prefix, encode(key).as_str())
}

/// The address of what a zone plays.
pub fn now_playing_url(zone_id: &str) -> (r: String)
    ensures
        r@ == keyed_address("/now_playing?zone_id="@, zone_id@),
{
    address_with("/now_playing?zone_id=", zone_id)
}

// ── The base path ───────────────────────────────────────────────────────────

/// Where an address leads while the bridge is served below a base path: an address
/// from the root of the origin goes below the base path, any other stays as it is.
/// Served at the root itself, the bridge has an empty base path.
pub open spec fn based(base: Seq<char>, address: Seq<char>) -> Seq<char> {
    if has_prefix(address, "/"@) {
        base + address
    } else {
        address
    }
}

/// The address that the browser has to ask for.
pub fn href(base: &str, address: &str) -> (r: String)
    ensures
        r@ == based(base@, address@),
{
    if crate::text::starts_with(address, "/") {
        crate::text::cat2(base, address)
    } else {
        address.to_owned()
    }
}

/// Served at the root, every address stays as it is.
pub proof fn direct_addresses_stay(address: Seq<char>)
    ensures
        based(""@, address) == address,
{
    reveal_strlit("");
    assert(""@ + address =~= address);
}

/// A base path makes no address out of none, and leaves none without one.
pub proof fn base_path_keeps_missing_addresses(base: Seq<char>, address: Seq<char>)
    ensures
        based(base, address).len() == 0 <==> address.len() == 0,
{
    reveal_strlit("/");
}

/// An address from the root stands whole behind the base path, so that different
/// addresses stay different.
pub proof fn based_addresses_read_back(base: Seq<char>, address: Seq<char>)
    requires
        has_prefix(address, "/"@),
    ensures
        has_prefix(based(base, address), base),
        based(base, address).subrange(base.len() as int, based(base, address).len() as int)
            == address,
{
    let whole = based(base, address);
    assert(whole.subrange(0, base.len() as int) =~= base);
    assert(whole.subrange(base.len() as int, whole.len() as int) =~= address);
}

// ── Decoding undoes encoding ────────────────────────────────────────────────

/// ASCII text as bytes.
spec fn ascii_bytes(s: Seq<char>) -> Seq<u8> {
    Seq::new(s.len(), |i: int| s[i] as u8)
}

proof fn hex_digit_reads_back(d: int)
    requires
        0 <= d < 16,
    ensures
        (hex_char(d) as u32) < 128,
        hex_value(hex_char(d) as u8) == Some(d),
{
}

proof fn encoded_text_is_ascii(bytes: Seq<u8>)
    ensures
        is_ascii_chars(percent_encoded(bytes)),
    decreases bytes.len(),
{
    if bytes.len() > 0 {
        let b = bytes[0];
        let tail = percent_encoded(bytes.subrange(1, bytes.len() as int));
        encoded_text_is_ascii(bytes.subrange(1, bytes.len() as int));
        hex_digit_reads_back(b as int / 16);
        hex_digit_reads_back(b as int % 16);
        let whole = percent_encoded(bytes);
        let skip = if unreserved(b) {
            1int
        } else {
            3int
        };
        assert forall|i: int| 0 <= i < whole.len() implies (#[trigger] whole[i] as u32) < 128 by {
            if i >= skip {
                assert(whole[i] == tail[i - skip]);
            }
        }
    }
}

/// An encoded component never holds a mark of a query: neither the one between two
/// parameters nor the one between a key and its value.
pub proof fn encoded_text_stays_in_its_parameter(bytes: Seq<u8>)
    ensures
        !percent_encoded(bytes).contains('&'),
        !percent_encoded(bytes).contains('='),
    decreases bytes.len(),
{
    if bytes.len() > 0 {
        let b = bytes[0];
        let tail = percent_encoded(bytes.subrange(1, bytes.len() as int));
        encoded_text_stays_in_its_parameter(bytes.subrange(1, bytes.len() as int));
        let whole = percent_encoded(bytes);
        let skip = if unreserved(b) {
            1int
        } else {
            3int
        };
        assert forall|i: int| 0 <= i < whole.len() implies whole[i] != '&' by {
            if i >= skip {
                assert(whole[i] == tail[i - skip]);
            }
        }
    }
}

proof fn encoded_bytes_read_back(bytes: Seq<u8>)
    ensures
        percent_decoded(ascii_bytes(percent_encoded(bytes))) == bytes,
    decreases bytes.len(),
{
    let written = ascii_bytes(percent_encoded(bytes));
    if bytes.len() == 0 {
        assert(written =~= Seq::<u8>::empty());
    } else {
        let b = bytes[0];
        let rest = bytes.subrange(1, bytes.len() as int);
        let tail = ascii_bytes(percent_encoded(rest));
        encoded_bytes_read_back(rest);
        if unreserved(b) {
            assert(written[0] == b);
            assert(written.subrange(1, written.len() as int) =~= tail);
            assert(percent_decoded(written) == seq![b] + rest);
        } else {
            hex_digit_reads_back(b as int / 16);
            hex_digit_reads_back(b as int % 16);
            assert(written[0] == 0x25u8);
            assert(written[1] == hex_char(b as int / 16) as u8);
            assert(written[2] == hex_char(b as int % 16) as u8);
            assert(written.subrange(3, written.len() as int) =~= tail);
            assert(percent_decoded(written) == seq![b] + rest);
        }
        assert(seq![b] + rest =~= bytes);
    }
}

/// A component that was percent-encoded is decoded to the text that it came from.
pub proof fn decoding_undoes_encoding(text: Seq<char>)
    ensures
        decoded_text(percent_encoded(encode_utf8(text))) == Some(text),
{
    let bytes = encode_utf8(text);
    let written = percent_encoded(bytes);
    encoded_text_is_ascii(bytes);
    vstd::utf8::is_ascii_chars_encode_utf8(written);
    assert(encode_utf8(written) =~= ascii_bytes(written));
    encoded_bytes_read_back(bytes);
    vstd::utf8::encode_utf8_valid_utf8(text);
    vstd::utf8::encode_utf8_decode_utf8(text);
}

/// Letters, digits and four marks stand for themselves in an address; every other byte
/// becomes a percent sign and two characters.
pub proof fn plain_bytes_stand_for_themselves(bytes: Seq<u8>, b: u8)
    ensures
        ('a' as u8 <= b && b <= 'z' as u8) || ('A' as u8 <= b && b <= 'Z' as u8) || ('0' as u8 <= b
            && b <= '9' as u8) || b == '-' as u8 || b == '.' as u8 || b == '_' as u8 || b
            == '~' as u8 ==> percent_encoded(seq![b] + bytes) == seq![b as char]
            + percent_encoded(bytes),
        !(('a' as u8 <= b && b <= 'z' as u8) || ('A' as u8 <= b && b <= 'Z' as u8) || ('0' as u8
            <= b && b <= '9' as u8) || b == '-' as u8 || b == '.' as u8 || b == '_' as u8 || b
            == '~' as u8) ==> percent_encoded(seq![b] + bytes).len() == 3 + percent_encoded(
            bytes,
        ).len() && percent_encoded(seq![b] + bytes)[0] == '%',
        percent_encoded(Seq::empty()).len() == 0,
{
    let whole = seq![b] + bytes;
    assert(whole.subrange(1, whole.len() as int) =~= bytes);
}

/// The sixteen digits go from zero to nine and on from A, in either case when read.
pub proof fn hexadecimal_digits_go_on_with_letters(d: int)
    requires
        0 <= d < 16,
    ensures
        d < 10 ==> hex_char(d) as u32 == 48 + d,
        d >= 10 ==> hex_char(d) as u32 == 65 + d - 10,
        hex_value(hex_char(d) as u8) == Some(d),
        d >= 10 ==> hex_value((hex_char(d) as u8 + 32) as u8) == Some(d),
{
}

/// An address with a key begins as it did, and different keys give different addresses.
pub proof fn keyed_addresses_tell_keys_apart(prefix: Seq<char>, a: Seq<char>, b: Seq<char>)
    ensures
        keyed_address(prefix, a).subrange(0, prefix.len() as int) == prefix,
        keyed_address(prefix, a) == keyed_address(prefix, b) ==> a == b,
{
    let x = keyed_address(prefix, a);
    let y = keyed_address(prefix, b);
    assert(x.subrange(0, prefix.len() as int) =~= prefix);
    decoding_undoes_encoding(a);
    decoding_undoes_encoding(b);
    if x == y {
        assert(x.subrange(prefix.len() as int, x.len() as int) =~= percent_encoded(encode_utf8(a)));
        assert(y.subrange(prefix.len() as int, y.len() as int) =~= percent_encoded(encode_utf8(b)));
    }
}

/// An address that begins with a slash goes behind the base path, any other stays.
pub proof fn rooted_addresses_go_below_the_base_path(base: Seq<char>, address: Seq<char>)
    ensures
        address.len() > 0 && address[0] == '/' ==> based(base, address) == base + address,
        address.len() == 0 || address[0] != '/' ==> based(base, address) == address,
{
    reveal_strlit("/");
    if address.len() > 0 {
        assert(address.subrange(0, 1) =~= seq![address[0]]);
        assert("/"@ =~= seq!['/']);
        assert("/"@[0] == '/');
    }
}

} // verus!
