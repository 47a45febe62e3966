//! Text building blocks for request paths: decimal numbers, percent-encoded
//! segments and query strings.
use vstd::prelude::*;
use vstd::string::StringSliceAdditionalSpecFns;
use vstd::utf8::encode_utf8;

verus! {

/// The ASCII digit for `d` (`d < 10`).
pub open spec fn digit_char(d: nat) -> char {
    ((48 + d) as u8) as char
}

/// Decimal representation of `n`, most significant digit first, no leading zeros.
pub open spec fn decimal(n: nat) -> Seq<char>
    decreases n,
{
    if n < 10 {
        seq![digit_char(n)]
    } else {
        decimal(n / 10) + seq![digit_char(n % 10)]
    }
}

/// Whether `c` is an ASCII decimal digit.
pub open spec fn is_decimal_digit(c: char) -> bool {
    '0' <= c <= '9'
}

/// The number that a string of decimal digits denotes, read most significant first.
pub open spec fn digits_value(s: Seq<char>) -> int
    decreases s.len(),
{
    if s.len() == 0 {
        0
    } else {
        digits_value(s.drop_last()) * 10 + (s.last() as int - 48)
    }
}

/// `decimal(n)` is the base-10 numeral of `n`: a non-empty string of decimal
/// digits that reads back as `n`, with no leading zero unless `n` is 0 (and
/// then it is just `0`).
pub proof fn lemma_decimal_numeral(n: nat)
    ensures
        decimal(n).len() > 0,
        forall|i: int| 0 <= i < decimal(n).len() ==> is_decimal_digit(#[trigger] decimal(n)[i]),
        digits_value(decimal(n)) == n,
        decimal(n)[0] == '0' ==> n == 0,
        n == 0 ==> decimal(n) == seq!['0'],
    decreases n,
{
    if n < 10 {
        let c = digit_char(n);
        assert(c as int == 48 + n);
        assert(decimal(n).drop_last() =~= Seq::<char>::empty());
        assert(digits_value(decimal(n)) == digits_value(Seq::<char>::empty()) * 10 + (c as int - 48));
        if n == 0 {
            assert(decimal(n) =~= seq!['0']);
        }
    } else {
        let q = n / 10;
        let r = n % 10;
        lemma_decimal_numeral(q);
        let c = digit_char(r);
        assert(c as int == 48 + r);
        let d = decimal(n);
        assert(d == decimal(q) + seq![c]);
        assert(d.drop_last() =~= decimal(q));
        assert(d.last() == c);
        assert(q * 10 + r == n) by (nonlinear_arith)
            requires
                q == n / 10,
                r == n % 10,
        ;
        assert(digits_value(d) == digits_value(decimal(q)) * 10 + (c as int - 48));
        assert(digits_value(d) == q * 10 + r);
        assert(d[0] == decimal(q)[0]);
        assert forall|i: int| 0 <= i < d.len() implies is_decimal_digit(#[trigger] d[i]) by {
            if i < decimal(q).len() {
                assert(d[i] == decimal(q)[i]);
            }
        }
    }
}

/// Upper-case hexadecimal digit for `n` (`n < 16`).
pub open spec fn hex_digit(n: nat) -> char {
    if n < 10 {
        ((48 + n) as u8) as char
    } else {
        ((55 + n) as u8) as char
    }
}

/// Bytes that a path or query segment may carry as they are (RFC 3986 "unreserved").
pub open spec fn is_unreserved(b: u8) -> bool {
    ||| 65 <= b <= 90
    ||| 97 <= b <= 122
    ||| 48 <= b <= 57
    ||| b == 45
    ||| b == 46
    ||| b == 95
    ||| b == 126
}

/// The encoding of one byte: itself when unreserved, else `%` and two upper-case hex digits.
pub open spec fn encode_byte(b: u8) -> Seq<char> {
    if is_unreserved(b) {
        seq![b as char]
    } else {
        seq!['%', hex_digit((b / 16) as nat), hex_digit((b % 16) as nat)]
    }
}

/// Percent-encoding of a byte string, byte by byte.
pub open spec fn percent_encode(bytes: Seq<u8>) -> Seq<char>
    decreases bytes.len(),
{
    if bytes.len() == 0 {
        seq![]
    } else {
        percent_encode(bytes.drop_last()) + encode_byte(bytes.last())
    }
}

/// Value of an upper-case hexadecimal digit.
pub open spec fn hex_value(c: char) -> int {
    if '0' <= c <= '9' {
        c as int - 48
    } else {
        c as int - 55
    }
}

/// Inverse of `percent_encode`: reads escapes and plain characters back into bytes.
pub open spec fn percent_decode(s: Seq<char>) -> Seq<u8>
    decreases s.len(),
{
    if s.len() == 0 {
        seq![]
    } else if s.len() >= 3 && s[s.len() - 3] == '%' {
        percent_decode(s.subrange(0, s.len() - 3)) + seq![
            (hex_value(s[s.len() - 2]) * 16 + hex_value(s[s.len() - 1])) as u8,
        ]
    } else {
        percent_decode(s.drop_last()) + seq![s.last() as u8]
    }
}

/// The encoded form of a text segment: the percent-encoding of its UTF-8 bytes.
pub open spec fn segment(s: Seq<char>) -> Seq<char> {
    percent_encode(encode_utf8(s))
}

/// Characters that can appear in an encoded segment.
pub open spec fn is_segment_char(c: char) -> bool {
    ||| ('A' <= c <= 'Z')
    ||| ('a' <= c <= 'z')
    ||| ('0' <= c <= '9')
    ||| c == '-'
    ||| c == '.'
    ||| c == '_'
    ||| c == '~'
    ||| c == '%'
}

/// Builds a `String` from the characters of a `Vec<char>` by std's
/// `FromIterator<&char>` for `String` (through `collect`). Trusted: the string
/// holds exactly those characters, in that order, as std documents.
#[verifier::external_body]
fn string_from_chars(chars: &Vec<char>) -> (s: String)
    ensures
        s@ == chars@,
{
    chars.iter().collect()
}

fn push_decimal(out: &mut Vec<char>, n: u64)
    ensures
        final(out)@ == old(out)@ + decimal(n as nat),
    decreases n,
{
    if n >= 10 {
        push_decimal(out, n / 10);
    }
    let d: u8 = (n % 10) as u8;
    out.push((48 + d) as char);
}

/// Decimal representation of `n`, as `format!("{n}")` writes it.
pub fn u64_to_decimal(n: u64) -> (s: String)
    ensures
        s@ == decimal(n as nat),
        digits_value(s@) == n,
        forall|i: int| 0 <= i < s@.len() ==> is_decimal_digit(#[trigger] s@[i]),
        s@.len() > 0,
        s@[0] == '0' ==> n == 0,
{
    proof {
        lemma_decimal_numeral(n as nat);
    }
    let mut out: Vec<char> = Vec::new();
    push_decimal(&mut out, n);
    assert(out@ =~= decimal(n as nat));
    string_from_chars(&out)
}

fn hex_char(n: u8) -> (c: char)
    requires
        n < 16,
    ensures
        c == hex_digit(n as nat),
{
    if n < 10 {
        (48 + n) as char
    } else {
        (55 + n) as char
    }
}

fn unreserved(b: u8) -> (r: bool)
    ensures
        r == is_unreserved(b),
{
    (65 <= b && b <= 90) || (97 <= b && b <= 122) || (48 <= b && b <= 57) || b == 45 || b == 46
        || b == 95 || b == 126
}

/// Percent-encodes one path or query segment: every byte of its UTF-8 form
/// outside the unreserved set becomes `%XX`, so `/`, `?`, `#`, `&` and `=`
/// in a value can never change the shape of a request path.
pub fn encode_segment(segment: &str) -> (encoded: String)
    ensures
        encoded@ == percent_encode(segment.spec_bytes()),
        encoded@ == self::segment(segment@),
{
    let bytes = segment.as_bytes();
    let mut out: Vec<char> = Vec::new();
    let mut i: usize = 0;
    while i < bytes.len()
        invariant
            bytes@ == segment.spec_bytes(),
            i <= bytes@.len(),
            out@ == percent_encode(bytes@.subrange(0, i as int)),
        decreases bytes@.len() - i,
    {
        let b = bytes[i];
        assert(bytes@.subrange(0, i + 1).drop_last() =~= bytes@.subrange(0, i as int));
        if unreserved(b) {
            out.push(b as char);
        } else {
            out.push('%');
            out.push(hex_char(b / 16));
            out.push(hex_char(b % 16));
        }
        assert(out@ =~= percent_encode(bytes@.subrange(0, i + 1)));
        i = i + 1;
    }
    assert(bytes@.subrange(0, bytes@.len() as int) =~= bytes@);
    string_from_chars(&out)
}

/// A `%` in an encoding always opens a complete three-character escape.
proof fn lemma_percent_has_room(bytes: Seq<u8>, i: int)
    requires
        0 <= i < percent_encode(bytes).len(),
        percent_encode(bytes)[i] == '%',
    ensures
        i + 2 < percent_encode(bytes).len(),
    decreases bytes.len(),
{
    let prefix = percent_encode(bytes.drop_last());
    if i < prefix.len() {
        lemma_percent_has_room(bytes.drop_last(), i);
    } else {
        let b = bytes.last();
        if is_unreserved(b) {
            assert((b as char) != '%');
        }
    }
}

/// Every character of an encoded segment is unreserved or `%`.
pub proof fn lemma_encoded_chars(bytes: Seq<u8>)
    ensures
        forall|i: int|
            0 <= i < percent_encode(bytes).len() ==> is_segment_char(
                #[trigger] percent_encode(bytes)[i],
            ),
    decreases bytes.len(),
{
    if bytes.len() > 0 {
        lemma_encoded_chars(bytes.drop_last());
        let prefix = percent_encode(bytes.drop_last());
        let piece = encode_byte(bytes.last());
        assert forall|i: int| 0 <= i < percent_encode(bytes).len() implies is_segment_char(
            #[trigger] percent_encode(bytes)[i],
        ) by {
            if i >= prefix.len() {
                assert(percent_encode(bytes)[i] == piece[i - prefix.len()]);
            }
        }
    }
}

/// Decoding an encoded segment gives back its bytes: the encoding loses nothing.
pub proof fn lemma_decode_encode(bytes: Seq<u8>)
    ensures
        percent_decode(percent_encode(bytes)) == bytes,
    decreases bytes.len(),
{
    if bytes.len() > 0 {
        let rest = bytes.drop_last();
        let b = bytes.last();
        let prefix = percent_encode(rest);
        let s = percent_encode(bytes);
        lemma_decode_encode(rest);
        if is_unreserved(b) {
            assert(s == prefix + seq![b as char]);
            if s.len() >= 3 && s[s.len() - 3] == '%' {
                lemma_percent_has_room(rest, s.len() - 3);
                assert(false);
            }
            assert(s.drop_last() =~= prefix);
            assert((b as char) as u8 == b);
        } else {
            let hi = (b / 16) as nat;
            let lo = (b % 16) as nat;
            assert(s == prefix + seq!['%', hex_digit(hi), hex_digit(lo)]);
            assert(s[s.len() - 3] == '%');
            assert(s.subrange(0, s.len() - 3) =~= prefix);
            assert(hex_value(hex_digit(hi)) == hi);
            assert(hex_value(hex_digit(lo)) == lo);
            assert(hi * 16 + lo == b);
        }
        assert(percent_decode(s) =~= bytes);
    }
}

/// Two byte strings with the same encoding are equal: distinct values give
/// distinct path segments.
pub proof fn lemma_encode_injective(a: Seq<u8>, b: Seq<u8>)
    requires
        percent_encode(a) == percent_encode(b),
    ensures
        a == b,
{
    lemma_decode_encode(a);
    lemma_decode_encode(b);
}

/// A list of query parameters as it stands after the path: nothing when empty,
/// else `?` and the parameters joined by `&`.
pub open spec fn query_suffix(params: Seq<Seq<char>>) -> Seq<char>
    decreases params.len(),
{
    if params.len() == 0 {
        seq![]
    } else if params.len() == 1 {
        seq!['?'] + params[0]
    } else {
        query_suffix(params.drop_last()) + seq!['&'] + params.last()
    }
}

/// Appends one query parameter to `path`, which ends with the query of `params`.
pub(crate) fn push_param(path: &mut String, count: usize, p: &str, Ghost(base): Ghost<Seq<char>>, Ghost(params): Ghost<Seq<Seq<char>>>)
    requires
        count == params.len(),
        old(path)@ == base + query_suffix(params),
    ensures
        final(path)@ == base + query_suffix(params.push(p@)),
{
    assert(params.push(p@).drop_last() =~= params);
    proof {
        reveal_strlit("?");
        reveal_strlit("&");
    }
    if count == 0 {
        path.append("?");
    } else {
        path.append("&");
    }
    path.append(p);
    proof {
        if count == 0 {
            assert(query_suffix(params) =~= seq![]);
        }
    }
    assert(path@ =~= base + query_suffix(params.push(p@)));
}

/// The views of a list of strings.
pub open spec fn views(params: Seq<String>) -> Seq<Seq<char>> {
    params.map_values(|p: String| p@)
}

/// Appends the query made of `params` to `path`.
pub fn append_query(path: &mut String, params: &Vec<String>)
    ensures
        final(path)@ == old(path)@ + query_suffix(views(params@)),
{
    let ghost base = path@;
    let mut i: usize = 0;
    assert(views(params@.subrange(0, 0)) =~= Seq::<Seq<char>>::empty());
    while i < params.len()
        invariant
            i <= params@.len(),
            path@ == base + query_suffix(views(params@.subrange(0, i as int))),
        decreases params@.len() - i,
    {
        let ghost done = views(params@.subrange(0, i as int));
        push_param(path, i, params[i].as_str(), Ghost(base), Ghost(done));
        assert(views(params@.subrange(0, i + 1)) =~= done.push(params@[i as int]@));
        i = i + 1;
    }
    assert(params@.subrange(0, params@.len() as int) =~= params@);
}

} // verus!
