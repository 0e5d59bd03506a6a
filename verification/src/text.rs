//! Text primitives shared by every page: searching, trimming, ordering and
//! number formatting, all stated over the characters of a string.

use vstd::prelude::*;
use vstd::string::{StrSliceExecFns, StringExecFns};
use vstd::utf8::is_ascii_chars;

verus! {

/// `str == str`: two strings are equal exactly when they hold the same
/// characters in the same order.
pub assume_specification[ <str as PartialEq>::eq ](a: &str, b: &str) -> (r: bool)
    ensures
        r == (a@ == b@),
;

/// `String::push`: appends one character and leaves the rest as it was.
pub assume_specification[ String::push ](s: &mut String, c: char)
    ensures
        final(s)@ == old(s)@.push(c),
;

/// Whether two texts are the same.
pub fn same(a: &str, b: &str) -> (r: bool)
    ensures
        r == (a@ == b@),
{
    *a == *b
}

/// The lower-case form of a text under Unicode's case mapping.
pub uninterp spec fn lowercase(s: Seq<char>) -> Seq<char>;

/// The lower-case form of an ASCII character.
pub open spec fn ascii_lower(c: char) -> char {
    if 'A' <= c && c <= 'Z' {
        ((c as u8 + 32) as u8) as char
    } else {
        c
    }
}

/// A capital becomes the letter thirty-two places on, and everything else stays.
pub proof fn only_capitals_are_lowered(c: char)
    ensures
        'A' <= c <= 'Z' ==> ascii_lower(c) as int == c as int + 32,
        c < 'A' || 'Z' < c ==> ascii_lower(c) == c,
        ascii_lower(ascii_lower(c)) == ascii_lower(c),
{
}

/// `str::to_lowercase`: the result depends on the text alone. Of ASCII text each
/// letter is lowered and the rest kept; the Unicode tables behind other text are
/// not written out.
#[verifier::external_body]
pub(crate) fn to_lowercase(s: &str) -> (r: String)
    ensures
        r@ == lowercase(s@),
        is_ascii_chars(s@) ==> r@ == s@.map_values(|c: char| ascii_lower(c)),
{
    s.to_lowercase()
}

// ── Views of optional text ──────────────────────────────────────────────────

/// The characters of an optional string.
pub open spec fn opt_text(o: Option<String>) -> Option<Seq<char>> {
    match o {
        Some(s) => Some(s@),
        None => None,
    }
}

/// The characters of an optional string slice.
pub open spec fn opt_str(o: Option<&str>) -> Option<Seq<char>> {
    match o {
        Some(s) => Some(s@),
        None => None,
    }
}

/// The characters of each string of a list.
pub open spec fn texts(s: Seq<String>) -> Seq<Seq<char>> {
    s.map_values(|t: String| t@)
}

/// Borrows an optional string as an optional slice.
pub fn as_opt_str(o: &Option<String>) -> (r: Option<&str>)
    ensures
        opt_str(r) == opt_text(*o),
{
    match o {
        Some(s) => Some(s.as_str()),
        None => None,
    }
}

/// Whether an optional string holds exactly `value`.
pub fn opt_is(o: &Option<String>, value: &str) -> (r: bool)
    ensures
        r == (opt_text(*o) == Some(value@)),
{
    match o {
        Some(s) => same(s.as_str(), value),
        None => false,
    }
}

/// Whether two optional strings hold the same text.
pub fn opt_same(a: &Option<String>, b: &Option<String>) -> (r: bool)
    ensures
        r == (opt_text(*a) == opt_text(*b)),
{
    match (a, b) {
        (Some(x), Some(y)) => same(x.as_str(), y.as_str()),
        (None, None) => true,
        _ => false,
    }
}

/// `value` unless it is empty.
pub fn non_empty(value: String) -> (r: Option<String>)
    ensures
        r == (if value@.len() == 0 { None } else { Some(value) }),
{
    if value.as_str().is_empty() {
        None
    } else {
        Some(value)
    }
}

/// Whether a list holds a text.
pub fn list_contains(list: &Vec<String>, value: &str) -> (r: bool)
    ensures
        r == texts(list@).contains(value@),
{
    let mut i: usize = 0;
    while i < list.len()
        invariant
            i <= list@.len(),
            forall|j: int| 0 <= j < i ==> #[trigger] texts(list@)[j] != value@,
        decreases list@.len() - i,
    {
        assert(texts(list@)[i as int] == list@[i as int]@);
        if same(list[i].as_str(), value) {
            return true;
        }
        i = i + 1;
    }
    false
}

// ── Characters ──────────────────────────────────────────────────────────────

/// The characters of a string, as a vector that can be indexed.
pub fn chars_of(s: &str) -> (r: Vec<char>)
    ensures
        r@ == s@,
{
    let mut v: Vec<char> = Vec::new();
    for c in iter: s.chars()
        invariant
            iter.seq() == s@,
            v@ == s@.take(iter.index() as int),
    {
        v.push(c);
        assert(s@.take(iter.index() as int).push(c) =~= s@.take(iter.index() as int + 1));
    }
    assert(v@ =~= s@);
    v
}

/// The characters from a position on, as a string.
pub fn string_from(v: &Vec<char>, from: usize) -> (r: String)
    requires
        from <= v@.len(),
    ensures
        r@ == v@.subrange(from as int, v@.len() as int),
{
    let mut out = String::new();
    let mut i: usize = from;
    while i < v.len()
        invariant
            from <= i <= v@.len(),
            out@ == v@.subrange(from as int, i as int),
        decreases v@.len() - i,
    {
        out.push(v[i]);
        assert(v@.subrange(from as int, i as int).push(v@[i as int]) =~= v@.subrange(
            from as int,
            i + 1,
        ));
        i = i + 1;
    }
    out
}

/// The Unicode `White_Space` characters.
pub open spec fn is_white_space(c: char) -> bool {
    ('\u{0009}' <= c && c <= '\u{000D}') || c == '\u{0020}' || c == '\u{0085}' || c == '\u{00A0}' || c
        == '\u{1680}' || ('\u{2000}' <= c && c <= '\u{200A}') || c == '\u{2028}' || c == '\u{2029}' || c
        == '\u{202F}' || c == '\u{205F}' || c == '\u{3000}'
}

/// Whether a character is Unicode white space.
pub fn white_space(c: char) -> (r: bool)
    ensures
        r == is_white_space(c),
{
    ('\u{0009}' <= c && c <= '\u{000D}') || c == '\u{0020}' || c == '\u{0085}' || c == '\u{00A0}' || c
        == '\u{1680}' || ('\u{2000}' <= c && c <= '\u{200A}') || c == '\u{2028}' || c == '\u{2029}' || c
        == '\u{202F}' || c == '\u{205F}' || c == '\u{3000}'
}

/// The text without its leading white space.
pub open spec fn trimmed_start(s: Seq<char>) -> Seq<char>
    decreases s.len(),
{
    if s.len() > 0 && is_white_space(s[0]) {
        trimmed_start(s.subrange(1, s.len() as int))
    } else {
        s
    }
}

/// The text without its trailing white space.
pub open spec fn trimmed_end(s: Seq<char>) -> Seq<char>
    decreases s.len(),
{
    if s.len() > 0 && is_white_space(s[s.len() - 1]) {
        trimmed_end(s.subrange(0, s.len() - 1))
    } else {
        s
    }
}

/// The text without the white space at either end.
pub open spec fn trimmed(s: Seq<char>) -> Seq<char> {
    trimmed_end(trimmed_start(s))
}

/// Below the accented letters only the blank, the five control characters from tab to
/// carriage return, the next-line character and the no-break space are white space.
pub proof fn visible_characters_are_not_white_space(c: char)
    ensures
        (c as u32) < 256 ==> (is_white_space(c) <==> c == ' ' || (9 <= c as u32 && c as u32 <= 13)
            || c as u32 == 133 || c as u32 == 160),
        is_digit(c) || ('a' <= c && c <= 'z') || ('A' <= c && c <= 'Z') ==> !is_white_space(c),
{
}

proof fn leading_white_space_goes(s: Seq<char>) -> (n: int)
    ensures
        0 <= n <= s.len(),
        trimmed_start(s) == s.subrange(n, s.len() as int),
        forall|i: int| 0 <= i < n ==> is_white_space(#[trigger] s[i]),
        n < s.len() ==> !is_white_space(s[n]),
    decreases s.len(),
{
    if s.len() > 0 && is_white_space(s[0]) {
        let rest = s.subrange(1, s.len() as int);
        let n = leading_white_space_goes(rest);
        assert(rest.subrange(n, rest.len() as int) =~= s.subrange(n + 1, s.len() as int));
        assert forall|i: int| 0 <= i < n + 1 implies is_white_space(#[trigger] s[i]) by {
            if i > 0 {
                assert(rest[i - 1] == s[i]);
            }
        }
        n + 1
    } else {
        assert(s.subrange(0, s.len() as int) =~= s);
        0
    }
}

proof fn trailing_white_space_goes(s: Seq<char>) -> (n: int)
    ensures
        0 <= n <= s.len(),
        trimmed_end(s) == s.subrange(0, n),
        forall|i: int| n <= i < s.len() ==> is_white_space(#[trigger] s[i]),
        n > 0 ==> !is_white_space(s[n - 1]),
    decreases s.len(),
{
    if s.len() > 0 && is_white_space(s[s.len() - 1]) {
        let rest = s.subrange(0, s.len() - 1);
        let n = trailing_white_space_goes(rest);
        assert(rest.subrange(0, n) =~= s.subrange(0, n));
        assert forall|i: int| n <= i < s.len() implies is_white_space(#[trigger] s[i]) by {
            if i < rest.len() {
                assert(rest[i] == s[i]);
            }
        }
        n
    } else {
        assert(s.subrange(0, s.len() as int) =~= s);
        s.len() as int
    }
}

/// Trimming takes white space from the two ends and nothing else: what is left stands in
/// the text, only white space stands around it, and it neither begins nor ends with any.
pub proof fn trimming_takes_only_white_space(s: Seq<char>)
    ensures
        exists|from: int, to: int|
            #![trigger s.subrange(from, to)]
            0 <= from <= to <= s.len() && trimmed(s) == s.subrange(from, to) && (forall|i: int|
                0 <= i < s.len() && (i < from || to <= i) ==> is_white_space(#[trigger] s[i])),
        trimmed(s).len() > 0 ==> !is_white_space(trimmed(s)[0]) && !is_white_space(
            trimmed(s)[trimmed(s).len() - 1],
        ),
        trimmed(s).len() == 0 <==> forall|i: int| 0 <= i < s.len() ==> is_white_space(#[trigger] s[i]),
{
    let from = leading_white_space_goes(s);
    let rest = trimmed_start(s);
    let n = trailing_white_space_goes(rest);
    let to = from + n;
    assert(rest.subrange(0, n) =~= s.subrange(from, to));
    assert forall|i: int| 0 <= i < s.len() && (i < from || to <= i) implies is_white_space(
        #[trigger] s[i],
    ) by {
        if to <= i {
            assert(rest[i - from] == s[i]);
        }
    }
    if n > 0 {
        assert(rest[0] == s[from]);
        assert(trimmed(s)[0] == s[from]);
        assert(trimmed(s)[n - 1] == rest[n - 1]);
        assert(!is_white_space(s[from]));
    }
    assert(trimmed(s) == s.subrange(from, to));
}

/// Removes the white space at both ends of a text.
pub fn trim(s: &str) -> (r: String)
    ensures
        r@ == trimmed(s@),
{
    let v = chars_of(s);
    let n: usize = v.len();
    let mut lo: usize = 0;
    assert(s@.subrange(0, n as int) =~= s@);
    while lo < n && white_space(v[lo])
        invariant
            lo <= n,
            n == v@.len(),
            v@ == s@,
            trimmed_start(s@) == trimmed_start(s@.subrange(lo as int, n as int)),
        decreases n - lo,
    {
        assert(s@.subrange(lo as int, n as int).subrange(1, n - lo) =~= s@.subrange(
            lo + 1,
            n as int,
        ));
        lo = lo + 1;
    }
    assert(trimmed_start(s@) == s@.subrange(lo as int, n as int));
    let ghost base = s@.subrange(lo as int, n as int);
    let mut hi: usize = n;
    assert(base =~= s@.subrange(lo as int, hi as int));
    while hi > lo && white_space(v[hi - 1])
        invariant
            lo <= hi <= n,
            n == v@.len(),
            v@ == s@,
            trimmed_end(base) == trimmed_end(s@.subrange(lo as int, hi as int)),
        decreases hi,
    {
        assert(s@.subrange(lo as int, hi as int).subrange(0, hi - lo - 1) =~= s@.subrange(
            lo as int,
            hi - 1,
        ));
        hi = hi - 1;
    }
    s.substring_char(lo, hi).to_owned()
}

// ── Searching ───────────────────────────────────────────────────────────────

/// `needle` stands in `hay` at position `at`.
pub open spec fn occurs_at(hay: Seq<char>, needle: Seq<char>, at: int) -> bool {
    0 <= at && at + needle.len() <= hay.len() && hay.subrange(at, at + needle.len() as int) == needle
}

/// `needle` stands somewhere in `hay`.
pub open spec fn occurs_in(hay: Seq<char>, needle: Seq<char>) -> bool {
    exists|at: int| occurs_at(hay, needle, at)
}

/// `hay` begins with `prefix`.
pub open spec fn has_prefix(hay: Seq<char>, prefix: Seq<char>) -> bool {
    occurs_at(hay, prefix, 0)
}

/// A text holds another just where it is something, then that text, then something.
pub proof fn occurrence_splits_the_text(hay: Seq<char>, needle: Seq<char>)
    ensures
        occurs_in(hay, needle) <==> exists|a: Seq<char>, b: Seq<char>|
            #![trigger a + needle + b]
            hay == a + needle + b,
{
    if occurs_in(hay, needle) {
        let at = choose|at: int| occurs_at(hay, needle, at);
        let a = hay.subrange(0, at);
        let b = hay.subrange(at + needle.len(), hay.len() as int);
        assert(hay =~= a + needle + b);
    }
    if exists|a: Seq<char>, b: Seq<char>| #![trigger a + needle + b] hay == a + needle + b {
        let (a, b) = choose|a: Seq<char>, b: Seq<char>|
            #![trigger a + needle + b]
            hay == a + needle + b;
        assert(hay.subrange(a.len() as int, (a.len() + needle.len()) as int) =~= needle);
        assert(occurs_at(hay, needle, a.len() as int));
    }
}

/// A text begins with another just where it is that text, then something.
pub proof fn prefix_splits_the_text(hay: Seq<char>, prefix: Seq<char>)
    ensures
        has_prefix(hay, prefix) <==> exists|rest: Seq<char>| hay == #[trigger] (prefix + rest),
{
    if has_prefix(hay, prefix) {
        let rest = hay.subrange(prefix.len() as int, hay.len() as int);
        assert(hay =~= prefix + rest);
    }
    if exists|rest: Seq<char>| hay == #[trigger] (prefix + rest) {
        let rest = choose|rest: Seq<char>| hay == #[trigger] (prefix + rest);
        assert(hay.subrange(0, prefix.len() as int) =~= prefix);
    }
}

fn chars_match_at(hay: &Vec<char>, needle: &Vec<char>, at: usize) -> (r: bool)
    requires
        at + needle@.len() <= hay@.len(),
    ensures
        r == occurs_at(hay@, needle@, at as int),
{
    let mut k: usize = 0;
    let total: usize = hay.len();
    while k < needle.len()
        invariant
            k <= needle@.len(),
            total == hay@.len(),
            at + needle@.len() <= hay@.len(),
            forall|j: int| 0 <= j < k ==> hay@[at + j] == needle@[j],
        decreases needle@.len() - k,
    {
        if hay[at + k] != needle[k] {
            assert(hay@.subrange(at as int, at + needle@.len() as int)[k as int] != needle@[k as int]);
            return false;
        }
        k = k + 1;
    }
    assert(hay@.subrange(at as int, at + needle@.len() as int) =~= needle@);
    true
}

/// Whether `needle` stands somewhere in `hay`.
pub fn contains(hay: &str, needle: &str) -> (r: bool)
    ensures
        r == occurs_in(hay@, needle@),
{
    let h = chars_of(hay);
    let n = chars_of(needle);
    if n.len() > h.len() {
        return false;
    }
    let last: usize = h.len() - n.len();
    let mut at: usize = 0;
    loop
        invariant
            at <= last,
            h@ == hay@,
            n@ == needle@,
            last + n@.len() == h@.len(),
            forall|j: int| 0 <= j < at ==> !occurs_at(hay@, needle@, j),
        decreases last - at,
    {
        if chars_match_at(&h, &n, at) {
            return true;
        }
        if at == last {
            assert forall|j: int| !occurs_at(hay@, needle@, j) by {
                if 0 <= j < at {
                } else if j == at {
                } else {
                }
            }
            return false;
        }
        at = at + 1;
    }
}

/// Whether `hay` begins with `prefix`.
pub fn starts_with(hay: &str, prefix: &str) -> (r: bool)
    ensures
        r == has_prefix(hay@, prefix@),
{
    let h = chars_of(hay);
    let p = chars_of(prefix);
    if p.len() > h.len() {
        false
    } else {
        chars_match_at(&h, &p, 0)
    }
}

/// What follows `prefix` in `hay`, where `hay` begins with it.
pub fn strip_prefix(hay: &str, prefix: &str) -> (r: Option<String>)
    ensures
        opt_text(r) == (if has_prefix(hay@, prefix@) {
            Some(hay@.subrange(prefix@.len() as int, hay@.len() as int))
        } else {
            None
        }),
{
    if starts_with(hay, prefix) {
        let n: usize = hay.unicode_len();
        let p: usize = prefix.unicode_len();
        Some(hay.substring_char(p, n).to_owned())
    } else {
        None
    }
}

// ── Splitting ───────────────────────────────────────────────────────────────

/// The pieces of a text between the separators; there is always one more piece
/// than separators.
pub open spec fn split_on(s: Seq<char>, separator: char) -> Seq<Seq<char>>
    decreases s.len(),
{
    if s.len() == 0 {
        seq![Seq::<char>::empty()]
    } else {
        let before = split_on(s.subrange(0, s.len() - 1), separator);
        let c = s[s.len() - 1];
        if c == separator {
            before.push(Seq::empty())
        } else {
            before.subrange(0, before.len() - 1).push(before[before.len() - 1].push(c))
        }
    }
}

/// Splits a text at every separator.
pub fn split(s: &str, separator: char) -> (r: Vec<String>)
    ensures
        texts(r@) == split_on(s@, separator),
{
    let v = chars_of(s);
    let n: usize = v.len();
    let mut pieces: Vec<String> = Vec::new();
    let mut current = String::new();
    let mut i: usize = 0;
    assert(texts(pieces@).push(current@) =~= split_on(s@.subrange(0, 0), separator));
    while i < n
        invariant
            i <= n,
            n == v@.len(),
            v@ == s@,
            texts(pieces@).push(current@) == split_on(s@.subrange(0, i as int), separator),
        decreases n - i,
    {
        let c: char = v[i];
        let ghost upto = s@.subrange(0, i + 1);
        let ghost before = texts(pieces@).push(current@);
        assert(upto.subrange(0, upto.len() - 1) =~= s@.subrange(0, i as int));
        if c == separator {
            let ghost was = pieces@;
            pieces.push(current);
            current = String::new();
            assert(texts(pieces@) =~= before);
            assert(texts(pieces@).push(current@) =~= before.push(Seq::empty()));
        } else {
            current.push(c);
            assert(before.subrange(0, before.len() - 1) =~= texts(pieces@));
        }
        i = i + 1;
    }
    let ghost before = texts(pieces@).push(current@);
    assert(s@.subrange(0, n as int) =~= s@);
    pieces.push(current);
    assert(texts(pieces@) =~= before);
    pieces
}

/// Joining the pieces with the separator gives the text back.
pub proof fn split_pieces_rejoin(s: Seq<char>, separator: char)
    ensures
        split_on(s, separator).len() > 0,
        joined(split_on(s, separator), seq![separator]) == s,
    decreases s.len(),
{
    if s.len() == 0 {
        assert(joined(split_on(s, separator), seq![separator]) =~= s);
    } else {
        let shorter = s.subrange(0, s.len() - 1);
        let before = split_on(shorter, separator);
        let after = split_on(s, separator);
        let c = s[s.len() - 1];
        split_pieces_rejoin(shorter, separator);
        if c == separator {
            assert(after.subrange(0, after.len() - 1) =~= before);
            assert(joined(after, seq![separator]) =~= s);
        } else {
            let head = before.subrange(0, before.len() - 1);
            assert(after.subrange(0, after.len() - 1) =~= head);
            assert(after[after.len() - 1] == before[before.len() - 1].push(c));
            assert(joined(after, seq![separator]) =~= shorter.push(c));
            assert(shorter.push(c) =~= s);
        }
    }
}

/// A text without separators is its own and only piece.
pub proof fn whole_text_is_one_piece(s: Seq<char>, separator: char)
    requires
        !s.contains(separator),
    ensures
        split_on(s, separator) == seq![s],
    decreases s.len(),
{
    if s.len() == 0 {
        assert(s =~= Seq::<char>::empty());
    } else {
        let shorter = s.subrange(0, s.len() - 1);
        assert(!shorter.contains(separator)) by {
            assert forall|i: int| 0 <= i < shorter.len() implies shorter[i] != separator by {
                assert(s[i] == shorter[i]);
            }
        }
        whole_text_is_one_piece(shorter, separator);
        assert(s[s.len() - 1] != separator);
        assert(shorter.push(s[s.len() - 1]) =~= s);
        assert(split_on(s, separator) =~= seq![s]);
    }
}

/// A piece behind a separator is the last piece.
proof fn last_piece_splits_off(head: Seq<char>, piece: Seq<char>, separator: char)
    requires
        !piece.contains(separator),
    ensures
        split_on(head + seq![separator] + piece, separator) == split_on(head, separator).push(
            piece,
        ),
    decreases piece.len(),
{
    let s = head + seq![separator] + piece;
    let shorter = s.subrange(0, s.len() - 1);
    if piece.len() == 0 {
        assert(shorter =~= head);
        assert(piece =~= Seq::<char>::empty());
    } else {
        let n = piece.len() - 1;
        let rest = piece.subrange(0, n);
        assert forall|i: int| 0 <= i < rest.len() implies rest[i] != separator by {
            assert(piece[i] == rest[i]);
        }
        last_piece_splits_off(head, rest, separator);
        assert(shorter =~= head + seq![separator] + rest);
        assert(s[s.len() - 1] == piece[n]);
        assert(rest.push(piece[n]) =~= piece);
        let before = split_on(shorter, separator);
        assert(before.subrange(0, before.len() - 1) =~= split_on(head, separator));
    }
}

/// Pieces that were joined with a separator that none of them holds split into the
/// same pieces again.
pub proof fn joined_pieces_split(pieces: Seq<Seq<char>>, separator: char)
    requires
        pieces.len() > 0,
        forall|i: int| 0 <= i < pieces.len() ==> !(#[trigger] pieces[i]).contains(separator),
    ensures
        split_on(joined(pieces, seq![separator]), separator) == pieces,
    decreases pieces.len(),
{
    if pieces.len() == 1 {
        whole_text_is_one_piece(pieces[0], separator);
        assert(pieces =~= seq![pieces[0]]);
    } else {
        let n = pieces.len() - 1;
        let earlier = pieces.subrange(0, n);
        assert forall|i: int| 0 <= i < earlier.len() implies !(#[trigger] earlier[i]).contains(
            separator,
        ) by {
            assert(pieces[i] == earlier[i]);
        }
        joined_pieces_split(earlier, separator);
        last_piece_splits_off(joined(earlier, seq![separator]), pieces[n], separator);
        assert(earlier.push(pieces[n]) =~= pieces);
    }
}

// ── Ordering ────────────────────────────────────────────────────────────────

/// Lexicographic order by code point: the order in which lists of names are
/// sorted.
pub open spec fn text_le(a: Seq<char>, b: Seq<char>) -> bool
    decreases a.len(),
{
    if a.len() == 0 {
        true
    } else if b.len() == 0 {
        false
    } else if a[0] == b[0] {
        text_le(a.subrange(1, a.len() as int), b.subrange(1, b.len() as int))
    } else {
        a[0] < b[0]
    }
}

/// Whether `a` sorts no later than `b`.
pub fn le(a: &str, b: &str) -> (r: bool)
    ensures
        r == text_le(a@, b@),
{
    let x = chars_of(a);
    let y = chars_of(b);
    let mut i: usize = 0;
    assert(x@.subrange(0, x@.len() as int) =~= x@);
    assert(y@.subrange(0, y@.len() as int) =~= y@);
    loop
        invariant
            x@ == a@,
            y@ == b@,
            i <= x@.len(),
            i <= y@.len(),
            text_le(a@, b@) == text_le(
                x@.subrange(i as int, x@.len() as int),
                y@.subrange(i as int, y@.len() as int),
            ),
        decreases x@.len() - i,
    {
        if i == x.len() {
            return true;
        }
        if i == y.len() {
            return false;
        }
        if x[i] != y[i] {
            return x[i] < y[i];
        }
        assert(x@.subrange(i as int, x@.len() as int).subrange(1, x@.len() - i) =~= x@.subrange(
            i + 1,
            x@.len() as int,
        ));
        assert(y@.subrange(i as int, y@.len() as int).subrange(1, y@.len() - i) =~= y@.subrange(
            i + 1,
            y@.len() as int,
        ));
        i = i + 1;
    }
}

/// The first character in which two texts differ decides their order, and a text comes
/// before its continuations.
pub proof fn first_difference_decides(shared: Seq<char>, a: Seq<char>, b: Seq<char>)
    ensures
        a.len() > 0 && b.len() > 0 && a[0] != b[0] ==> (text_le(shared + a, shared + b) <==> (
        a[0] as int) < b[0] as int),
        text_le(shared, shared + b),
        b.len() > 0 ==> !text_le(shared + b, shared),
    decreases shared.len(),
{
    if shared.len() > 0 {
        let rest = shared.subrange(1, shared.len() as int);
        first_difference_decides(rest, a, b);
        assert((shared + a).subrange(1, (shared + a).len() as int) =~= rest + a);
        assert((shared + b).subrange(1, (shared + b).len() as int) =~= rest + b);
    } else {
        assert(shared + a =~= a);
        assert(shared + b =~= b);
    }
}

/// Any two texts are ordered one way or the other.
pub proof fn text_le_total(a: Seq<char>, b: Seq<char>)
    ensures
        text_le(a, b) || text_le(b, a),
    decreases a.len(),
{
    if a.len() > 0 && b.len() > 0 && a[0] == b[0] {
        text_le_total(a.subrange(1, a.len() as int), b.subrange(1, b.len() as int));
    }
}

/// The order of texts is transitive.
pub proof fn text_le_transitive(a: Seq<char>, b: Seq<char>, c: Seq<char>)
    requires
        text_le(a, b),
        text_le(b, c),
    ensures
        text_le(a, c),
    decreases a.len(),
{
    if a.len() > 0 && b.len() > 0 && c.len() > 0 && a[0] == b[0] && b[0] == c[0] {
        text_le_transitive(
            a.subrange(1, a.len() as int),
            b.subrange(1, b.len() as int),
            c.subrange(1, c.len() as int),
        );
    }
}

/// Two texts that are ordered both ways are the same text.
pub proof fn text_le_antisymmetric(a: Seq<char>, b: Seq<char>)
    requires
        text_le(a, b),
        text_le(b, a),
    ensures
        a == b,
    decreases a.len(),
{
    if a.len() == 0 || b.len() == 0 {
        assert(a =~= b);
    } else {
        let x = a.subrange(1, a.len() as int);
        let y = b.subrange(1, b.len() as int);
        text_le_antisymmetric(x, y);
        assert(a =~= seq![a[0]] + x);
        assert(b =~= seq![b[0]] + y);
    }
}

// ── Numbers ─────────────────────────────────────────────────────────────────

/// The character of a decimal digit.
pub open spec fn digit_char(d: int) -> char {
    if d == 0 {
        '0'
    } else if d == 1 {
        '1'
    } else if d == 2 {
        '2'
    } else if d == 3 {
        '3'
    } else if d == 4 {
        '4'
    } else if d == 5 {
        '5'
    } else if d == 6 {
        '6'
    } else if d == 7 {
        '7'
    } else if d == 8 {
        '8'
    } else {
        '9'
    }
}

/// A natural number in decimal, without leading zeros.
pub open spec fn decimal(n: nat) -> Seq<char>
    decreases n,
{
    if n < 10 {
        seq![digit_char(n as int)]
    } else {
        decimal(n / 10).push(digit_char((n % 10) as int))
    }
}

/// An integer in decimal, with a leading minus sign where it is negative.
pub open spec fn decimal_int(n: int) -> Seq<char> {
    if n < 0 {
        seq!['-'] + decimal((-n) as nat)
    } else {
        decimal(n as nat)
    }
}

/// The digits follow each other in code order, from zero on.
pub proof fn digits_follow_their_values(d: int)
    requires
        0 <= d < 10,
    ensures
        digit_char(d) as u32 == 48 + d,
        is_digit(digit_char(d)),
{
}

/// A number is written with the digits that spell it: read as digits it is the number
/// again, and it begins with a zero only where it is zero.
pub proof fn decimal_spells_its_number(n: nat)
    ensures
        decimal(n).len() > 0,
        all_digits(decimal(n)),
        digits_value(decimal(n)) == n,
        decimal(n)[0] == '0' <==> n == 0,
    decreases n,
{
    if n < 10 {
        digits_follow_their_values(n as int);
        assert(decimal(n).subrange(0, 0) =~= Seq::<char>::empty());
        reveal_with_fuel(digits_value, 2);
    } else {
        let front = decimal(n / 10);
        let c = digit_char((n % 10) as int);
        decimal_spells_its_number(n / 10);
        digits_follow_their_values((n % 10) as int);
        assert(decimal(n) == front.push(c));
        assert(front.push(c).subrange(0, front.push(c).len() - 1) =~= front);
        assert forall|i: int| 0 <= i < front.push(c).len() implies is_digit(
            #[trigger] front.push(c)[i],
        ) by {
            if i < front.len() {
                assert(front[i] == front.push(c)[i]);
            }
        }
    }
}

/// A written number is read back, with a plus sign in front too, while it is within
/// bounds; beyond them nothing is read.
pub proof fn written_number_reads_back(n: nat, max: int)
    ensures
        parsed_unsigned(decimal(n), max) == (if n <= max {
            Some(n as int)
        } else {
            None
        }),
        parsed_unsigned(seq!['+'] + decimal(n), max) == parsed_unsigned(decimal(n), max),
{
    decimal_spells_its_number(n);
    let signed = seq!['+'] + decimal(n);
    assert(is_digit(decimal(n)[0]));
    assert(signed.subrange(1, signed.len() as int) =~= decimal(n));
}

/// A written integer is read back, and only negative ones have a minus sign.
pub proof fn written_integer_reads_back(n: int, min: int, max: int)
    requires
        min <= n <= max,
        min <= 0 <= max,
    ensures
        parsed_signed(decimal_int(n), min, max) == Some(n),
        decimal_int(n)[0] == '-' <==> n < 0,
        n > 0 ==> decimal_int(-n) == seq!['-'] + decimal_int(n),
{
    let magnitude = if n < 0 {
        (-n) as nat
    } else {
        n as nat
    };
    decimal_spells_its_number(magnitude);
    written_number_reads_back(magnitude, max);
    assert(is_digit(decimal(magnitude)[0]));
    if n < 0 {
        let s = decimal_int(n);
        assert(s.subrange(1, s.len() as int) =~= decimal(magnitude));
    }
}

/// A number without a minus sign is never negative.
pub proof fn read_numbers_are_natural(s: Seq<char>, max: int)
    ensures
        parsed_unsigned(s, max) is Some ==> parsed_unsigned(s, max)->0 >= 0,
{
    let body = unsigned_digits(s);
    if parsed_unsigned(s, max) is Some {
        digits_value_monotone(body, body.len() as int);
        assert(body.subrange(0, body.len() as int) =~= body);
    }
}

/// Only a run of digits, after a plus sign at most, spells a number; its value grows
/// tenfold with each digit.
pub proof fn numbers_are_runs_of_digits(s: Seq<char>, max: int)
    ensures
        parsed_unsigned(s, max) is Some ==> s.len() > 0 && parsed_unsigned(s, max)->0 <= max && (
        forall|i: int| 0 < i < s.len() ==> '0' <= #[trigger] s[i] && s[i] <= '9') && (s[0] == '+'
            || ('0' <= s[0] && s[0] <= '9')) && s != seq!['+'],
        forall|c: char|
            '0' <= c && c <= '9' ==> #[trigger] digits_value(s.push(c)) == digits_value(s) * 10 + (
            c as int - 48),
{
    if parsed_unsigned(s, max) is Some {
        let body = unsigned_digits(s);
        assert forall|i: int| 0 < i < s.len() implies '0' <= #[trigger] s[i] && s[i] <= '9' by {
            if s[0] == '+' {
                assert(is_digit(body[i - 1]));
            } else {
                assert(is_digit(body[i]));
            }
        }
        if s[0] != '+' {
            assert(is_digit(body[0]));
        }
    }
    assert forall|c: char| '0' <= c && c <= '9' implies #[trigger] digits_value(s.push(c))
        == digits_value(s) * 10 + (c as int - 48) by {
        assert(s.push(c).subrange(0, s.push(c).len() - 1) =~= s);
    }
}

/// The character of a decimal digit.
pub fn digit(d: u64) -> (c: char)
    requires
        d < 10,
    ensures
        c == digit_char(d as int),
{
    if d == 0 {
        '0'
    } else if d == 1 {
        '1'
    } else if d == 2 {
        '2'
    } else if d == 3 {
        '3'
    } else if d == 4 {
        '4'
    } else if d == 5 {
        '5'
    } else if d == 6 {
        '6'
    } else if d == 7 {
        '7'
    } else if d == 8 {
        '8'
    } else {
        '9'
    }
}

/// Writes an unsigned number in decimal.
pub fn number(n: u64) -> (r: String)
    ensures
        r@ == decimal(n as nat),
    decreases n,
{
    if n < 10 {
        let mut s = String::new();
        s.push(digit(n));
        assert(s@ =~= decimal(n as nat));
        s
    } else {
        let mut s = number(n / 10);
        s.push(digit(n % 10));
        s
    }
}

/// Writes a signed number in decimal.
pub fn signed_number(n: i64) -> (r: String)
    ensures
        r@ == decimal_int(n as int),
{
    if n >= 0 {
        number(n as u64)
    } else {
        let magnitude: u64 = (-(n as i128)) as u64;
        let sign = String::from_str("-");
        proof {
            reveal_strlit("-");
        }
        assert("-"@ =~= seq!['-']);
        sign.concat(number(magnitude).as_str())
    }
}

/// Whether a character is an ASCII decimal digit.
pub open spec fn is_digit(c: char) -> bool {
    '0' <= c && c <= '9'
}

/// Whether every character of a text is a decimal digit.
pub open spec fn all_digits(s: Seq<char>) -> bool {
    forall|i: int| 0 <= i < s.len() ==> is_digit(#[trigger] s[i])
}

/// The number that a run of decimal digits stands for.
pub open spec fn digits_value(s: Seq<char>) -> int
    decreases s.len(),
{
    if s.len() == 0 {
        0
    } else {
        digits_value(s.subrange(0, s.len() - 1)) * 10 + (s[s.len() - 1] as u32 - '0' as u32)
    }
}

/// The digits of a number as it is typed: a single leading `+` is skipped.
pub open spec fn unsigned_digits(s: Seq<char>) -> Seq<char> {
    if s.len() > 0 && s[0] == '+' {
        s.subrange(1, s.len() as int)
    } else {
        s
    }
}

/// The unsigned number that a text spells, where it spells one up to `max`.
pub open spec fn parsed_unsigned(s: Seq<char>, max: int) -> Option<int> {
    parsed_digits(unsigned_digits(s), max)
}

proof fn digits_value_monotone(s: Seq<char>, k: int)
    requires
        all_digits(s),
        0 <= k <= s.len(),
    ensures
        0 <= digits_value(s.subrange(0, k)) <= digits_value(s),
    decreases s.len(),
{
    if k == s.len() {
        assert(s.subrange(0, k) =~= s);
        if s.len() > 0 {
            digits_value_monotone(s.subrange(0, s.len() - 1), s.len() - 1);
            assert(is_digit(s[s.len() - 1]));
        }
    } else {
        let shorter = s.subrange(0, s.len() - 1);
        digits_value_monotone(shorter, k);
        assert(shorter.subrange(0, k) =~= s.subrange(0, k));
        assert(is_digit(s[s.len() - 1]));
    }
}

/// The number that a run of digits spells, where there is a run and it spells one
/// up to `max`.
pub open spec fn parsed_digits(body: Seq<char>, max: int) -> Option<int> {
    if body.len() > 0 && all_digits(body) && digits_value(body) <= max {
        Some(digits_value(body))
    } else {
        None
    }
}

/// The integer that a text spells, where it spells one between `min` and `max`:
/// digits after at most one sign.
pub open spec fn parsed_signed(s: Seq<char>, min: int, max: int) -> Option<int> {
    if s.len() > 0 && s[0] == '-' {
        match parsed_digits(s.subrange(1, s.len() as int), -min) {
            Some(magnitude) => Some(-magnitude),
            None => None,
        }
    } else {
        parsed_unsigned(s, max)
    }
}

fn parse_digits(v: &Vec<char>, start: usize, max: u64) -> (r: Option<u64>)
    requires
        start <= v@.len(),
    ensures
        match r {
            Some(value) => parsed_digits(v@.subrange(start as int, v@.len() as int), max as int)
                == Some(value as int),
            None => parsed_digits(v@.subrange(start as int, v@.len() as int), max as int) is None,
        },
{
    let n: usize = v.len();
    let ghost body = v@.subrange(start as int, n as int);
    if start == n {
        return None;
    }
    let mut value: u64 = 0;
    let mut i: usize = start;
    while i < n
        invariant
            start <= i <= n,
            n == v@.len(),
            start < n,
            body == v@.subrange(start as int, n as int),
            value <= max,
            value == digits_value(body.subrange(0, i - start)),
            forall|j: int| 0 <= j < i - start ==> is_digit(#[trigger] body[j]),
        decreases n - i,
    {
        let c: char = v[i];
        assert(body[i - start] == c);
        if !('0' <= c && c <= '9') {
            return None;
        }
        let d: u32 = c as u32 - '0' as u32;
        let next: u128 = value as u128 * 10 + d as u128;
        assert(body.subrange(0, i - start + 1).subrange(0, i - start) =~= body.subrange(
            0,
            i - start,
        ));
        assert(next == digits_value(body.subrange(0, i + 1 - start)));
        if next > max as u128 {
            proof {
                if all_digits(body) {
                    digits_value_monotone(body, i + 1 - start);
                }
            }
            return None;
        }
        value = next as u64;
        i = i + 1;
    }
    assert(body.subrange(0, n - start) =~= body);
    Some(value)
}

/// Reads an unsigned number no larger than `max`.
pub fn parse_unsigned(s: &str, max: u64) -> (r: Option<u64>)
    ensures
        match r {
            Some(v) => parsed_unsigned(s@, max as int) == Some(v as int),
            None => parsed_unsigned(s@, max as int) is None,
        },
{
    let v = chars_of(s);
    let start: usize = if v.len() > 0 && v[0] == '+' {
        1
    } else {
        0
    };
    assert(unsigned_digits(s@) =~= v@.subrange(start as int, v@.len() as int));
    parse_digits(&v, start, max)
}

/// Reads a 32-bit integer.
pub fn parse_i32(s: &str) -> (r: Option<i32>)
    ensures
        match r {
            Some(v) => parsed_signed(s@, -2147483648, 2147483647) == Some(v as int),
            None => parsed_signed(s@, -2147483648, 2147483647) is None,
        },
{
    let v = chars_of(s);
    if v.len() > 0 && v[0] == '-' {
        match parse_digits(&v, 1, 2147483648) {
            Some(magnitude) => Some((-(magnitude as i64)) as i32),
            None => None,
        }
    } else {
        match parse_unsigned(s, 2147483647) {
            Some(value) => Some(value as i32),
            None => None,
        }
    }
}

/// Reads an unsigned 32-bit number.
pub fn parse_u32(s: &str) -> (r: Option<u32>)
    ensures
        match r {
            Some(v) => parsed_unsigned(s@, 4294967295) == Some(v as int),
            None => parsed_unsigned(s@, 4294967295) is None,
        },
{
    match parse_unsigned(s, 4294967295) {
        Some(value) => Some(value as u32),
        None => None,
    }
}

/// Reads a port number.
pub fn parse_port(s: &str) -> (r: Option<u16>)
    ensures
        match r {
            Some(v) => parsed_unsigned(s@, 65535) == Some(v as int),
            None => parsed_unsigned(s@, 65535) is None,
        },
{
    match parse_unsigned(s, 65535) {
        Some(v) => Some(v as u16),
        None => None,
    }
}

// ── Concatenation ───────────────────────────────────────────────────────────

/// Two texts in a row.
pub fn cat2(a: &str, b: &str) -> (r: String)
    ensures
        r@ == a@ + b@,
{
    String::from_str(a).concat(b)
}

/// Three texts in a row.
pub fn cat3(a: &str, b: &str, c: &str) -> (r: String)
    ensures
        r@ == a@ + b@ + c@,
{
    cat2(a, b).concat(c)
}

/// Four texts in a row.
pub fn cat4(a: &str, b: &str, c: &str, d: &str) -> (r: String)
    ensures
        r@ == a@ + b@ + c@ + d@,
{
    cat3(a, b, c).concat(d)
}

/// Five texts in a row.
pub fn cat5(a: &str, b: &str, c: &str, d: &str, e: &str) -> (r: String)
    ensures
        r@ == a@ + b@ + c@ + d@ + e@,
{
    cat4(a, b, c, d).concat(e)
}

/// Texts joined by a separator.
pub open spec fn joined(parts: Seq<Seq<char>>, separator: Seq<char>) -> Seq<char>
    decreases parts.len(),
{
    if parts.len() == 0 {
        Seq::empty()
    } else if parts.len() == 1 {
        parts[0]
    } else {
        joined(parts.subrange(0, parts.len() - 1), separator) + separator + parts[parts.len() - 1]
    }
}

/// Joins texts with a separator between each two.
pub fn join(parts: &Vec<String>, separator: &str) -> (r: String)
    ensures
        r@ == joined(texts(parts@), separator@),
{
    if parts.len() == 0 {
        return String::new();
    }
    let mut out: String = parts[0].clone();
    let mut i: usize = 1;
    assert(texts(parts@).subrange(0, 1) =~= seq![texts(parts@)[0]]);
    while i < parts.len()
        invariant
            1 <= i <= parts@.len(),
            out@ == joined(texts(parts@).subrange(0, i as int), separator@),
        decreases parts@.len() - i,
    {
        assert(texts(parts@).subrange(0, i + 1).subrange(0, i as int) =~= texts(parts@).subrange(
            0,
            i as int,
        ));
        out = cat3(out.as_str(), separator, parts[i].as_str());
        i = i + 1;
    }
    assert(texts(parts@).subrange(0, i as int) =~= texts(parts@));
    out
}

} // verus!
