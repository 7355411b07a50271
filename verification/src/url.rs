//! Base URLs and the path segments appended to them.

use vstd::prelude::*;

verus! {

/// How long a URL may be by `grown_len`, its fixed path segments left out. The offsets
/// within a URL have 32 bits; what this leaves of them is [`URL_MARGIN`] twice.
pub const MAX_URL_TEXT: u64 = 4_294_965_247;

/// What a URL needs at most for its fixed path segments. As much again is left for what
/// the parser adds to a base.
pub const URL_MARGIN: u64 = 1_024;

/// How long one character of a base URL may grow: in a host name it may stand for
/// several, each of which takes a number of digits.
pub const BASE_GROWTH: u64 = 128;

/// How long a base URL may grow together with `path` characters of path.
pub open spec fn grown_len(base: Seq<char>, path: nat) -> nat {
    BASE_GROWTH as nat * base.len() + path
}

/// The text of each segment.
pub open spec fn texts(segments: Seq<&str>) -> Seq<Seq<char>> {
    Seq::new(segments.len(), |i: int| segments[i]@)
}

/// What a base URL parses to: its text before the path's end, without a trailing
/// slash of the path, and its text after the path. An error holds its message,
/// or nothing where the URL parses but cannot carry a path.
pub uninterp spec fn base_url_parts(base: Seq<char>) -> Result<
    (Seq<char>, Seq<char>),
    Option<Seq<char>>,
>;

/// The text of a base URL that path segments were appended to.
pub uninterp spec fn url_with_segments(base: Seq<char>, segments: Seq<Seq<char>>) -> Seq<char>;

/// Whether a URL is a plain HTTP one.
pub open spec fn is_http(base: Seq<char>) -> bool {
    "http://"@.is_prefix_of(base) || "https://"@.is_prefix_of(base)
}

/// Whether a segment stands for a directory step, and is left out of a path.
pub open spec fn is_dot_segment(segment: Seq<char>) -> bool {
    segment == "."@ || segment == ".."@
}

/// Whether a character is a tab or a line break, which URLs drop.
pub open spec fn is_dropped(c: char) -> bool {
    c == '\t' || c == '\n' || c == '\r'
}

/// A segment without its tabs and line breaks.
pub open spec fn single_line(segment: Seq<char>) -> Seq<char>
    decreases segment.len(),
{
    if segment.len() == 0 {
        segment
    } else if is_dropped(segment.last()) {
        single_line(segment.drop_last())
    } else {
        single_line(segment.drop_last()).push(segment.last())
    }
}

/// Whether a segment is free of tabs and line breaks.
pub open spec fn is_single_line(segment: Seq<char>) -> bool {
    forall|i: int| 0 <= i < segment.len() ==> !is_dropped(#[trigger] segment[i])
}

/// Whether a segment turns into a directory step only as its tabs and line breaks are
/// dropped. It is then not left out of a path, but taken as that step.
pub open spec fn hides_dot_segment(segment: Seq<char>) -> bool {
    is_dot_segment(single_line(segment)) && !is_dot_segment(segment)
}

/// Whether a byte stands for itself in a path segment.
pub open spec fn is_kept(byte: u8) -> bool {
    &&& 0x20 < byte < 0x7f
    &&& byte != 0x22  // "
    &&& byte != 0x23  // #
    &&& byte != 0x25  // %
    &&& byte != 0x2f  // /
    &&& byte != 0x3c  // <
    &&& byte != 0x3e  // >
    &&& byte != 0x3f  // ?
    &&& byte != 0x5c  // \
    &&& byte != 0x60  // `
    &&& byte != 0x7b  // {
    &&& byte != 0x7d  // }
}

/// The upper-case hexadecimal digit of a value below 16.
pub open spec fn upper_hex_digit(value: int) -> char {
    if value < 10 {
        ('0' as int + value) as char
    } else {
        ('A' as int + value - 10) as char
    }
}

/// A byte in a path segment: itself, or a percent sign and two digits.
pub open spec fn encoded_byte(byte: u8) -> Seq<char> {
    if is_kept(byte) {
        seq![byte as char]
    } else {
        seq!['%', upper_hex_digit(byte as int / 16), upper_hex_digit(byte as int % 16)]
    }
}

/// Bytes in a path segment.
pub open spec fn encoded_bytes(bytes: Seq<u8>) -> Seq<char>
    decreases bytes.len(),
{
    if bytes.len() == 0 {
        Seq::empty()
    } else {
        encoded_byte(bytes[0]) + encoded_bytes(bytes.drop_first())
    }
}

/// A text as a path segment, percent-encoded.
pub open spec fn encoded_segment(segment: Seq<char>) -> Seq<char> {
    encoded_bytes(vstd::utf8::encode_utf8(segment))
}

/// A path of segments, each after a slash, directory steps, tabs and line breaks left
/// out.
pub open spec fn path_of(segments: Seq<Seq<char>>) -> Seq<char>
    decreases segments.len(),
{
    if segments.len() == 0 {
        Seq::empty()
    } else if is_dot_segment(segments.last()) {
        path_of(segments.drop_last())
    } else {
        path_of(segments.drop_last()) + seq!['/'] + encoded_segment(single_line(segments.last()))
    }
}

/// How long a path of segments is, each after a slash, none left out.
pub open spec fn path_len(segments: Seq<Seq<char>>) -> nat
    decreases segments.len(),
{
    if segments.len() == 0 {
        0
    } else {
        path_len(segments.drop_last()) + 1 + encoded_segment(segments.last()).len()
    }
}

/// Whether the segments make a path by themselves: none hides a directory step, and the
/// first is a name.
pub open spec fn plain_path(segments: Seq<Seq<char>>) -> bool {
    &&& segments.len() > 0
    &&& single_line(segments[0]).len() > 0
    &&& !is_dot_segment(segments[0])
    &&& forall|i: int| 0 <= i < segments.len() ==> !hides_dot_segment(#[trigger] segments[i])
}

/// Parses `base` with `reqwest::Url::parse` and appends `segments` to its path with
/// `path_segments_mut`, `pop_if_empty` and `extend`. An error is the parser's
/// message, or `None` for a URL that cannot be a base. `extend` drops the tabs and line
/// breaks of each segment and percent-encodes the rest, so that in an HTTP URL a plain
/// path is appended as it is, between what the base holds up to the end of its path and
/// what it holds after it. How a segment that hides a directory step changes the path is
/// not said. A URL longer than its offsets can tell is left out.
#[verifier::external_body]
pub(crate) fn join_url(base: &str, segments: &Vec<&str>) -> (joined: Result<String, Option<String>>)
    requires
        grown_len(base@, path_len(texts(segments@))) <= MAX_URL_TEXT + URL_MARGIN,
    ensures
        match joined {
            Ok(url) => {
                &&& base_url_parts(base@) is Ok
                &&& url@ == url_with_segments(base@, texts(segments@))
                &&& is_http(base@) && plain_path(texts(segments@)) ==> url@ == (base_url_parts(
                    base@,
                )->Ok_0).0 + path_of(texts(segments@)) + (base_url_parts(base@)->Ok_0).1
            },
            Err(detail) => base_url_parts(base@) == Err::<(Seq<char>, Seq<char>), _>(
                detail.deep_view(),
            ),
        },
{
    let mut url = match reqwest::Url::parse(base) {
        Ok(url) => url,
        Err(e) => return Err(Some(e.to_string())),
    };
    match url.path_segments_mut() {
        Ok(mut path) => {
            path.pop_if_empty().extend(segments);
        },
        Err(()) => return Err(None),
    }
    Ok(url.to_string())
}

/// How many characters a text takes as a path segment.
pub fn encoded_len(segment: &str) -> (len: u128)
    ensures
        len == encoded_segment(segment@).len(),
        len <= 3 * usize::MAX,
{
    let bytes = segment.as_bytes();
    let mut len: u128 = 0;
    let mut i: usize = 0;
    assert(bytes@.skip(0) =~= bytes@);
    while i < bytes.len()
        invariant
            i <= bytes@.len(),
            len <= 3 * i,
            len + encoded_bytes(bytes@.skip(i as int)).len() == encoded_bytes(bytes@).len(),
        decreases bytes@.len() - i,
    {
        assert(bytes@.skip(i as int).drop_first() =~= bytes@.skip(i + 1));
        len = len + if stands_for_itself(bytes[i]) {
            1
        } else {
            3
        };
        i = i + 1;
    }
    len
}

/// Whether a byte stands for itself in a path segment.
fn stands_for_itself(byte: u8) -> (kept: bool)
    ensures
        kept == is_kept(byte),
{
    0x20 < byte && byte < 0x7f && byte != 0x22 && byte != 0x23 && byte != 0x25 && byte != 0x2f
        && byte != 0x3c && byte != 0x3e && byte != 0x3f && byte != 0x5c && byte != 0x60 && byte
        != 0x7b && byte != 0x7d
}

proof fn lemma_encoded_bytes_length(bytes: Seq<u8>)
    ensures
        encoded_bytes(bytes).len() <= 3 * bytes.len(),
    decreases bytes.len(),
{
    if bytes.len() > 0 {
        lemma_encoded_bytes_length(bytes.drop_first());
    }
}

proof fn lemma_utf8_length(text: Seq<char>)
    ensures
        vstd::utf8::encode_utf8(text).len() <= 4 * text.len(),
    decreases text.len(),
{
    if text.len() > 0 {
        lemma_utf8_length(text.drop_first());
    }
}

/// A path segment is at most twelve times as long as its text.
pub proof fn lemma_encoded_segment_length(segment: Seq<char>)
    ensures
        encoded_segment(segment).len() <= 12 * segment.len(),
{
    lemma_utf8_length(segment);
    lemma_encoded_bytes_length(vstd::utf8::encode_utf8(segment));
}

/// Whether a character ends a path segment or the path.
pub open spec fn is_delimiter(c: char) -> bool {
    c == '/' || c == '\\' || c == '?' || c == '#'
}

proof fn lemma_encoded_byte_has_no_delimiter(byte: u8)
    ensures
        forall|i: int|
            0 <= i < encoded_byte(byte).len() ==> !is_delimiter(#[trigger] encoded_byte(byte)[i]),
{
    if is_kept(byte) {
        assert(encoded_byte(byte)[0] == byte as char);
    } else {
        let encoded = encoded_byte(byte);
        assert(encoded[0] == '%');
        assert(encoded[1] == upper_hex_digit(byte as int / 16));
        assert(encoded[2] == upper_hex_digit(byte as int % 16));
    }
}

proof fn lemma_encoded_bytes_have_no_delimiter(bytes: Seq<u8>)
    ensures
        forall|i: int|
            0 <= i < encoded_bytes(bytes).len() ==> !is_delimiter(
                #[trigger] encoded_bytes(bytes)[i],
            ),
    decreases bytes.len(),
{
    if bytes.len() > 0 {
        lemma_encoded_byte_has_no_delimiter(bytes[0]);
        let rest = bytes.drop_first();
        lemma_encoded_bytes_have_no_delimiter(rest);
        let n = encoded_byte(bytes[0]).len() as int;
        assert forall|i: int| 0 <= i < encoded_bytes(bytes).len() implies !is_delimiter(
            #[trigger] encoded_bytes(bytes)[i],
        ) by {
            if i < n {
                assert(encoded_bytes(bytes)[i] == encoded_byte(bytes[0])[i]);
            } else {
                assert(encoded_bytes(bytes)[i] == encoded_bytes(rest)[i - n]);
            }
        }
    }
}

/// An id can never add a path: after a slash it holds nothing that would end its
/// segment or the path, and an id that names a directory step is left out.
pub proof fn law_id_stays_within_its_segment(segments: Seq<Seq<char>>, id: Seq<char>)
    ensures
        path_of(segments.push(id)) == if is_dot_segment(id) {
            path_of(segments)
        } else {
            path_of(segments) + seq!['/'] + encoded_segment(single_line(id))
        },
        forall|i: int|
            0 <= i < encoded_segment(single_line(id)).len() ==> !is_delimiter(
                #[trigger] encoded_segment(single_line(id))[i],
            ),
{
    assert(segments.push(id).drop_last() =~= segments);
    lemma_encoded_bytes_have_no_delimiter(vstd::utf8::encode_utf8(single_line(id)));
}

/// A segment without tabs and line breaks is kept as it is.
pub proof fn lemma_single_line_is_kept(segment: Seq<char>)
    requires
        is_single_line(segment),
    ensures
        single_line(segment) == segment,
    decreases segment.len(),
{
    if segment.len() > 0 {
        let front = segment.drop_last();
        assert forall|i: int| 0 <= i < front.len() implies !is_dropped(#[trigger] front[i]) by {
            assert(front[i] == segment[i]);
        }
        lemma_single_line_is_kept(front);
        assert(segment[segment.len() - 1] == segment.last());
        assert(front.push(segment.last()) =~= segment);
    }
}

proof fn lemma_hex_digits_injective(x: int, y: int)
    requires
        0 <= x < 16,
        0 <= y < 16,
        upper_hex_digit(x) == upper_hex_digit(y),
    ensures
        x == y,
{
}

proof fn lemma_encoded_byte_injective(x: u8, rest: Seq<char>, y: u8, other_rest: Seq<char>)
    requires
        encoded_byte(x) + rest == encoded_byte(y) + other_rest,
    ensures
        x == y,
        rest == other_rest,
{
    let text = encoded_byte(x) + rest;
    assert(text[0] == encoded_byte(x)[0]);
    assert(text[0] == encoded_byte(y)[0]);
    assert(is_kept(x) == is_kept(y));
    if is_kept(x) {
        assert(x as char == y as char);
    } else {
        assert(text[1] == encoded_byte(x)[1] && text[1] == encoded_byte(y)[1]);
        assert(text[2] == encoded_byte(x)[2] && text[2] == encoded_byte(y)[2]);
        lemma_hex_digits_injective(x as int / 16, y as int / 16);
        lemma_hex_digits_injective(x as int % 16, y as int % 16);
    }
    assert(x == y);
    let n = encoded_byte(x).len() as int;
    assert(rest =~= text.skip(n));
    assert(other_rest =~= text.skip(n));
}

proof fn lemma_encoded_bytes_injective(a: Seq<u8>, b: Seq<u8>)
    requires
        encoded_bytes(a) == encoded_bytes(b),
    ensures
        a == b,
    decreases a.len(),
{
    if a.len() == 0 {
        if b.len() > 0 {
            assert(encoded_byte(b[0]).len() > 0);
        }
    } else {
        assert(encoded_byte(a[0]).len() > 0);
        lemma_encoded_byte_injective(
            a[0],
            encoded_bytes(a.drop_first()),
            b[0],
            encoded_bytes(b.drop_first()),
        );
        lemma_encoded_bytes_injective(a.drop_first(), b.drop_first());
        assert(a =~= seq![a[0]] + a.drop_first());
        assert(b =~= seq![b[0]] + b.drop_first());
    }
}

/// Different ids give different segments, but for their tabs and line breaks, so no id
/// can stand in for another.
pub proof fn law_ids_are_told_apart(id: Seq<char>, other: Seq<char>)
    requires
        encoded_segment(single_line(id)) == encoded_segment(single_line(other)),
    ensures
        single_line(id) == single_line(other),
        is_single_line(id) && is_single_line(other) ==> id == other,
{
    let (kept, other_kept) = (single_line(id), single_line(other));
    let (a, b) = (vstd::utf8::encode_utf8(kept), vstd::utf8::encode_utf8(other_kept));
    lemma_encoded_bytes_injective(a, b);
    vstd::utf8::encode_utf8_decode_utf8(kept);
    vstd::utf8::encode_utf8_decode_utf8(other_kept);
    if is_single_line(id) && is_single_line(other) {
        lemma_single_line_is_kept(id);
        lemma_single_line_is_kept(other);
    }
}

/// An id of letters, digits, hyphens, underscores, dots and tildes stands in a URL as it is.
pub proof fn law_plain_bytes_stand_for_themselves(byte: u8)
    requires
        'a' as u8 <= byte <= 'z' as u8 || 'A' as u8 <= byte <= 'Z' as u8 || '0' as u8 <= byte
            <= '9' as u8 || byte == '-' as u8 || byte == '_' as u8 || byte == '.' as u8 || byte
            == '~' as u8,
    ensures
        encoded_byte(byte) == seq![byte as char],
{
}

/// What is not kept is written as a percent sign and the two digits of its value.
pub proof fn law_other_bytes_are_spelled_out(byte: u8)
    requires
        byte <= 0x20 || byte >= 0x7f || byte == '/' as u8 || byte == '?' as u8 || byte == '#' as u8
            || byte == '%' as u8 || byte == '\\' as u8,
    ensures
        encoded_byte(byte).len() == 3,
        encoded_byte(byte)[0] == '%',
        byte == 0x2f ==> encoded_byte(byte) == seq!['%', '2', 'F'],
        byte == 0x25 ==> encoded_byte(byte) == seq!['%', '2', '5'],
        byte == 0xc3 ==> encoded_byte(byte) == seq!['%', 'C', '3'],
{
    if byte == 0x2f {
        assert(encoded_byte(byte) =~= seq!['%', '2', 'F']);
    }
    if byte == 0x25 {
        assert(encoded_byte(byte) =~= seq!['%', '2', '5']);
    }
    if byte == 0xc3 {
        assert(encoded_byte(byte) =~= seq!['%', 'C', '3']);
    }
}

} // verus!
