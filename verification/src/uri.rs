//! Connection URIs: what the `url` crate makes of a text, and the query parameters that are
//! appended to it in the `application/x-www-form-urlencoded` syntax.

use url::Url;
use vstd::prelude::*;
use vstd::utf8::{decode_utf8, encode_utf8, is_ascii_chars};

verus! {

/// A query parameter: its name and its value.
pub type Pair = (Seq<char>, Seq<char>);

/// A URI, cut where its query and its fragment start.
pub struct UriParts {
    /// All that stands before the query: scheme, authority and path.
    pub base: Seq<char>,
    /// What stands behind the `?`.
    pub query: Option<Seq<char>>,
    /// What stands behind the `#`.
    pub fragment: Option<Seq<char>>,
}

impl UriParts {
    /// The base and the query, as they are written in the URI.
    pub open spec fn head(self) -> Seq<char> {
        match self.query {
            Some(query) => self.base + seq!['?'] + query,
            None => self.base,
        }
    }

    /// The whole URI as text.
    pub open spec fn text(self) -> Seq<char> {
        match self.fragment {
            Some(fragment) => self.head() + seq!['#'] + fragment,
            None => self.head(),
        }
    }

    /// The URI with one more parameter at the end of its query.
    pub open spec fn with_pair(self, name: Seq<char>, value: Seq<char>) -> UriParts {
        UriParts {
            base: self.base,
            query: Some(
                match self.query {
                    Some(query) => with_form_pair(query, name, value),
                    None => with_form_pair(Seq::empty(), name, value),
                },
            ),
            fragment: self.fragment,
        }
    }

    /// The URI with the parameters `pairs`, in their order, at the end of its query.
    pub open spec fn with_pairs(self, pairs: Seq<Pair>) -> UriParts
        decreases pairs.len(),
    {
        if pairs.len() == 0 {
            self
        } else {
            self.with_pairs(pairs.drop_last()).with_pair(pairs.last().0, pairs.last().1)
        }
    }

    /// Whether the positions of query and fragment stay within the 32 bits in which the `url`
    /// crate keeps them when the query grows from `self` to `grown`.
    pub open spec fn can_grow_to(self, grown: UriParts) -> bool {
        &&& self.query is None ==> encode_utf8(self.base).len() <= u32::MAX
        &&& self.fragment is Some ==> encode_utf8(grown.head()).len() <= u32::MAX
    }

    /// Whether `pairs` can be appended within those 32 bits.
    pub open spec fn has_room_for(self, pairs: Seq<Pair>) -> bool {
        pairs.len() == 0 || self.can_grow_to(self.with_pairs(pairs))
    }

    /// The parameters in the query, each as the bytes of its name and of its value.
    pub open spec fn pairs(self) -> Seq<(Seq<u8>, Seq<u8>)> {
        match self.query {
            Some(query) => form_pairs(query),
            None => Seq::empty(),
        }
    }
}

/// A query with one more parameter behind what it holds already.
pub open spec fn with_form_pair(query: Seq<char>, name: Seq<char>, value: Seq<char>) -> Seq<char> {
    let separator = if query.len() == 0 {
        Seq::<char>::empty()
    } else {
        seq!['&']
    };
    query + separator + form_encode(name) + seq!['='] + form_encode(value)
}

/// The bytes that the form encoding leaves as they are.
pub open spec fn is_form_safe(b: u8) -> bool {
    ||| '0' as u8 <= b <= '9' as u8
    ||| 'A' as u8 <= b <= 'Z' as u8
    ||| 'a' as u8 <= b <= 'z' as u8
    ||| b == '*' as u8
    ||| b == '-' as u8
    ||| b == '.' as u8
    ||| b == '_' as u8
}

/// The upper-case hexadecimal digit of a number below sixteen.
pub open spec fn hex_digit(d: int) -> char {
    if d < 10 {
        ('0' as u32 + d) as char
    } else {
        ('A' as u32 + (d - 10)) as char
    }
}

/// The form encoding of one byte: itself, `+` for a space, or `%` and two hexadecimal digits.
pub open spec fn form_byte(b: u8) -> Seq<char> {
    if is_form_safe(b) {
        seq![b as char]
    } else if b == ' ' as u8 {
        seq!['+']
    } else {
        seq!['%', hex_digit(b as int / 16), hex_digit(b as int % 16)]
    }
}

/// The form encoding of a sequence of bytes.
pub open spec fn form_bytes(bytes: Seq<u8>) -> Seq<char>
    decreases bytes.len(),
{
    if bytes.len() == 0 {
        Seq::empty()
    } else {
        form_byte(bytes[0]) + form_bytes(bytes.drop_first())
    }
}

/// The form encoding of a text.
pub open spec fn form_encode(s: Seq<char>) -> Seq<char> {
    form_bytes(encode_utf8(s))
}

/// The value of a hexadecimal digit in either case.
pub open spec fn hex_value(c: char) -> Option<int> {
    if '0' <= c && c <= '9' {
        Some(c as u32 - '0' as u32)
    } else if 'A' <= c && c <= 'F' {
        Some(c as u32 - 'A' as u32 + 10)
    } else if 'a' <= c && c <= 'f' {
        Some(c as u32 - 'a' as u32 + 10)
    } else {
        None
    }
}

/// Whether `s` starts with a percent sign and two hexadecimal digits.
pub open spec fn starts_with_escape(s: Seq<char>) -> bool {
    s.len() >= 3 && s[0] == '%' && hex_value(s[1]) is Some && hex_value(s[2]) is Some
}

/// The bytes that a form-encoded text stands for.
pub open spec fn form_decode(s: Seq<char>) -> Seq<u8>
    decreases s.len(),
{
    if s.len() == 0 {
        Seq::empty()
    } else if starts_with_escape(s) {
        seq![(hex_value(s[1])->0 * 16 + hex_value(s[2])->0) as u8] + form_decode(s.skip(3))
    } else if s[0] == '+' {
        seq![' ' as u8] + form_decode(s.drop_first())
    } else {
        encode_utf8(seq![s[0]]) + form_decode(s.drop_first())
    }
}

/// The part of `s` before the first `c`, or all of `s` where there is none.
pub open spec fn up_to(s: Seq<char>, c: char) -> Seq<char>
    decreases s.len(),
{
    if s.len() == 0 || s[0] == c {
        Seq::empty()
    } else {
        seq![s[0]] + up_to(s.drop_first(), c)
    }
}

/// The part of `s` behind the first `c`, or nothing where there is none.
pub open spec fn behind(s: Seq<char>, c: char) -> Seq<char>
    decreases s.len(),
{
    if s.len() == 0 {
        Seq::empty()
    } else if s[0] == c {
        s.drop_first()
    } else {
        behind(s.drop_first(), c)
    }
}

/// The parameters of a query: the parts between the `&`, of which empty ones are passed over,
/// each cut at its first `=`.
pub open spec fn form_pairs(query: Seq<char>) -> Seq<(Seq<u8>, Seq<u8>)>
    decreases query.len(),
    via form_pairs_decreases
{
    if query.len() == 0 {
        Seq::empty()
    } else {
        let item = up_to(query, '&');
        let rest = form_pairs(behind(query, '&'));
        if item.len() == 0 {
            rest
        } else {
            seq![(form_decode(up_to(item, '=')), form_decode(behind(item, '=')))] + rest
        }
    }
}

#[via_fn]
proof fn form_pairs_decreases(query: Seq<char>) {
    if query.len() > 0 {
        lemma_behind_is_shorter(query, '&');
    }
}

proof fn lemma_behind_is_shorter(s: Seq<char>, c: char)
    requires
        s.len() > 0,
    ensures
        behind(s, c).len() < s.len(),
    decreases s.len(),
{
    if s[0] != c && s.len() > 1 {
        lemma_behind_is_shorter(s.drop_first(), c);
    }
    if s.len() == 1 {
        assert(behind(s.drop_first(), c).len() == 0);
    }
}

/// What [`Url::parse`] makes of a text: the parts of the URI, or `None` where it refuses it.
pub uninterp spec fn uri_parse(text: Seq<char>) -> Option<UriParts>;

/// What a [`Url`] holds.
pub uninterp spec fn uri_parts(uri: Url) -> UriParts;

#[verifier::external_type_specification]
#[verifier::external_body]
pub struct ExUrl(Url);

#[verifier::external_type_specification]
#[verifier::external_body]
pub struct ExParseError(url::ParseError);

/// [`Url::parse`]: whether a text is an absolute URI, and which, is a function of the text alone.
#[verifier::external_body]
pub(crate) fn parse_uri(text: &str) -> (r: Result<Url, url::ParseError>)
    ensures
        match r {
            Ok(uri) => uri_parse(text@) == Some(uri_parts(uri)),
            Err(_) => uri_parse(text@) is None,
        },
{
    Url::parse(text)
}

/// [`Url::as_str`]: the URI as text, which is its base, its query behind a `?` and its fragment
/// behind a `#`.
#[verifier::external_body]
pub(crate) fn uri_as_str(uri: &Url) -> (r: &str)
    ensures
        r@ == uri_parts(*uri).text(),
{
    uri.as_str()
}

/// `append_pair` of [`Url::query_pairs_mut`]: the form encodings of the name and of the value
/// stand at the end of the query, behind an `&` unless the query was empty. It panics where the
/// position of the query or of the fragment does not fit in 32 bits.
#[verifier::external_body]
pub(crate) fn append_pair(uri: &mut Url, name: &str, value: &str)
    requires
        uri_parts(*old(uri)).can_grow_to(uri_parts(*old(uri)).with_pair(name@, value@)),
    ensures
        uri_parts(*final(uri)) == uri_parts(*old(uri)).with_pair(name@, value@),
{
    uri.query_pairs_mut().append_pair(name, value);
}

/// The parameters that a list of names and values stands for.
pub open spec fn pairs_view(pairs: Seq<(String, String)>) -> Seq<Pair> {
    Seq::new(pairs.len(), |i: int| (pairs[i].0@, pairs[i].1@))
}

/// Appends `pairs` to the query, in their order.
pub fn append_pairs(uri: &mut Url, pairs: &Vec<(String, String)>)
    requires
        uri_parts(*old(uri)).has_room_for(pairs_view(pairs@)),
    ensures
        uri_parts(*final(uri)) == uri_parts(*old(uri)).with_pairs(pairs_view(pairs@)),
{
    let ghost parts = uri_parts(*uri);
    let ghost all = pairs_view(pairs@);
    let mut i: usize = 0;
    assert(all.take(0) =~= Seq::empty());
    while i < pairs.len()
        invariant
            i <= pairs.len(),
            all == pairs_view(pairs@),
            parts.has_room_for(all),
            uri_parts(*uri) == parts.with_pairs(all.take(i as int)),
        decreases pairs.len() - i,
    {
        proof {
            let next = all.take(i + 1);
            assert(next.drop_last() =~= all.take(i as int));
            assert(all.take(all.len() as int) =~= all);
            lemma_with_pairs_keeps(parts, all.take(i as int));
            lemma_with_pairs_keeps(parts, next);
            lemma_with_pairs_keeps(parts, all);
            lemma_head_grows(parts, all, i + 1);
        }
        append_pair(uri, pairs[i].0.as_str(), pairs[i].1.as_str());
        i += 1;
    }
    assert(all.take(i as int) =~= all);
}

proof fn lemma_with_pairs_keeps(parts: UriParts, pairs: Seq<Pair>)
    ensures
        parts.with_pairs(pairs).base == parts.base,
        parts.with_pairs(pairs).fragment == parts.fragment,
        parts.query is Some || pairs.len() > 0 ==> parts.with_pairs(pairs).query is Some,
    decreases pairs.len(),
{
    if pairs.len() > 0 {
        lemma_with_pairs_keeps(parts, pairs.drop_last());
    }
}

proof fn lemma_encode_concat(a: Seq<char>, b: Seq<char>)
    ensures
        encode_utf8(a + b) == encode_utf8(a) + encode_utf8(b),
    decreases a.len(),
{
    if a.len() == 0 {
        assert(a + b =~= b);
    } else {
        assert((a + b).drop_first() =~= a.drop_first() + b);
        lemma_encode_concat(a.drop_first(), b);
    }
}

/// The head of a URI is no longer with fewer of the parameters.
proof fn lemma_head_grows(parts: UriParts, pairs: Seq<Pair>, n: int)
    requires
        0 <= n <= pairs.len(),
    ensures
        encode_utf8(parts.with_pairs(pairs.take(n)).head()).len() <= encode_utf8(
            parts.with_pairs(pairs).head(),
        ).len(),
    decreases pairs.len(),
{
    if n == pairs.len() {
        assert(pairs.take(n) =~= pairs);
    } else {
        let fewer = pairs.drop_last();
        assert(fewer.take(n) =~= pairs.take(n));
        lemma_head_grows(parts, fewer, n);
        lemma_one_pair_grows(parts.with_pairs(fewer), pairs.last().0, pairs.last().1);
    }
}

/// How much one parameter adds to the head of a URI.
proof fn lemma_one_pair_grows(parts: UriParts, name: Seq<char>, value: Seq<char>)
    ensures
        encode_utf8(parts.head()).len() <= encode_utf8(parts.with_pair(name, value).head()).len(),
        encode_utf8(parts.with_pair(name, value).head()).len() <= encode_utf8(parts.head()).len()
            + form_encode(name).len() + form_encode(value).len() + 2,
{
    let head = parts.head();
    let query = match parts.query {
        Some(query) => query,
        None => Seq::empty(),
    };
    let added = match parts.query {
        Some(query) => if query.len() == 0 {
            Seq::<char>::empty()
        } else {
            seq!['&']
        },
        None => seq!['?'],
    } + form_encode(name) + seq!['='] + form_encode(value);
    assert(parts.with_pair(name, value).head() =~= head + added);
    lemma_encode_concat(head, added);
    lemma_form_bytes_are_plain(encode_utf8(name));
    lemma_form_bytes_are_plain(encode_utf8(value));
    assert(is_ascii_chars(added));
    vstd::utf8::is_ascii_chars_encode_utf8(added);
}

/// Form encodings are ASCII and hold none of the characters that cut a URI or a query.
proof fn lemma_form_bytes_are_plain(bytes: Seq<u8>)
    ensures
        is_ascii_chars(form_bytes(bytes)),
        forall|i: int|
            0 <= i < form_bytes(bytes).len() ==> {
                let c = #[trigger] form_bytes(bytes)[i];
                c != '&' && c != '=' && c != '?' && c != '#'
            },
    decreases bytes.len(),
{
    if bytes.len() > 0 {
        lemma_form_bytes_are_plain(bytes.drop_first());
        let first = form_byte(bytes[0]);
        assert(forall|i: int|
            0 <= i < first.len() ==> {
                let c = #[trigger] first[i];
                c as u32 <= 127 && c != '&' && c != '=' && c != '?' && c != '#'
            });
    }
}

/// Appending parameters in two steps is appending them at once, with room for either.
pub proof fn lemma_append_in_two_steps(parts: UriParts, first: Seq<Pair>, second: Seq<Pair>)
    ensures
        parts.with_pairs(first).with_pairs(second) == parts.with_pairs(first + second),
        parts.has_room_for(first + second) ==> parts.has_room_for(first) && parts.with_pairs(
            first,
        ).has_room_for(second),
    decreases second.len(),
{
    let all = first + second;
    if second.len() == 0 {
        assert(all =~= first);
    } else {
        lemma_append_in_two_steps(parts, first, second.drop_last());
        assert(all.drop_last() =~= first + second.drop_last());
        if parts.has_room_for(all) {
            assert(all.take(first.len() as int) =~= first);
            lemma_head_grows(parts, all, first.len() as int);
            lemma_with_pairs_keeps(parts, first);
        }
    }
}

/// How many characters `pairs` can add to a URI at most.
pub open spec fn pairs_size(pairs: Seq<Pair>) -> nat
    decreases pairs.len(),
{
    if pairs.len() == 0 {
        0
    } else {
        pairs_size(pairs.drop_last()) + form_encode(pairs.last().0).len() + form_encode(
            pairs.last().1,
        ).len() + 2
    }
}

proof fn lemma_pairs_grow_by_their_size(parts: UriParts, pairs: Seq<Pair>)
    ensures
        encode_utf8(parts.with_pairs(pairs).head()).len() <= encode_utf8(parts.head()).len()
            + pairs_size(pairs),
    decreases pairs.len(),
{
    if pairs.len() > 0 {
        lemma_pairs_grow_by_their_size(parts, pairs.drop_last());
        lemma_one_pair_grows(
            parts.with_pairs(pairs.drop_last()),
            pairs.last().0,
            pairs.last().1,
        );
    }
}

/// A URI that is short enough with all of `pairs` has room for them.
pub proof fn lemma_short_uri_has_room(parts: UriParts, pairs: Seq<Pair>)
    requires
        encode_utf8(parts.text()).len() + pairs_size(pairs) <= u32::MAX,
    ensures
        parts.has_room_for(pairs),
{
    lemma_pairs_grow_by_their_size(parts, pairs);
    match parts.query {
        Some(query) => {
            lemma_encode_concat(parts.base, seq!['?'] + query);
            assert(parts.base + (seq!['?'] + query) =~= parts.head());
        },
        None => {},
    }
    match parts.fragment {
        Some(fragment) => {
            lemma_encode_concat(parts.head(), seq!['#'] + fragment);
            assert(parts.head() + (seq!['#'] + fragment) =~= parts.text());
        },
        None => {},
    }
}

/// The length of the form encoding of a text.
fn form_encoded_len(s: &str) -> (n: u128)
    ensures
        n == form_encode(s@).len(),
{
    let bytes = s.as_bytes();
    let mut n: u128 = 0;
    let mut i: usize = bytes.len();
    assert(bytes@.skip(i as int) =~= Seq::empty());
    while i > 0
        invariant
            i <= bytes@.len(),
            bytes@.len() == bytes.len(),
            n == form_bytes(bytes@.skip(i as int)).len(),
            n <= 3 * (bytes@.len() - i),
        decreases i,
    {
        i -= 1;
        let b: u8 = bytes[i];
        let safe = (48 <= b && b <= 57) || (65 <= b && b <= 90) || (97 <= b && b <= 122) || b == 42
            || b == 45 || b == 46 || b == 95;
        assert(bytes@.skip(i as int).drop_first() =~= bytes@.skip(i + 1));
        assert(bytes@.skip(i as int)[0] == b);
        if safe || b == 32 {
            n += 1;
        } else {
            n += 3;
        }
    }
    assert(bytes@.skip(0) =~= bytes@);
    n
}

/// Whether a URI stays below the size that the `url` crate supports with all of `pairs`.
pub(crate) fn is_short_with(uri: &Url, pairs: &Vec<(String, String)>) -> (r: bool)
    ensures
        r == (encode_utf8(uri_parts(*uri).text()).len() + pairs_size(pairs_view(pairs@))
            <= u32::MAX),
{
    let ghost all = pairs_view(pairs@);
    let text = uri_as_str(uri);
    let limit: u128 = 0xffff_ffff;
    let mut n: u128 = text.as_bytes().len() as u128;
    let mut i: usize = 0;
    assert(all.take(0) =~= Seq::empty());
    while i < pairs.len()
        invariant
            i <= pairs.len(),
            all == pairs_view(pairs@),
            n <= usize::MAX + 4 * limit,
            limit == u32::MAX,
            n == encode_utf8(uri_parts(*uri).text()).len() + pairs_size(all.take(i as int)),
        decreases pairs.len() - i,
    {
        if n > limit {
            proof {
                lemma_pairs_size_grows(all, i as int);
            }
            return false;
        }
        assert(all.take(i + 1).drop_last() =~= all.take(i as int));
        let name_len: u128 = form_encoded_len(pairs[i].0.as_str());
        let value_len: u128 = form_encoded_len(pairs[i].1.as_str());
        if name_len > limit || value_len > limit {
            proof {
                lemma_pairs_size_grows(all, i + 1);
            }
            return false;
        }
        n = n + name_len + value_len + 2;
        i += 1;
    }
    assert(all.take(i as int) =~= all);
    n <= limit
}

proof fn lemma_pairs_size_grows(pairs: Seq<Pair>, n: int)
    requires
        0 <= n <= pairs.len(),
    ensures
        pairs_size(pairs.take(n)) <= pairs_size(pairs),
    decreases pairs.len(),
{
    if n == pairs.len() {
        assert(pairs.take(n) =~= pairs);
    } else {
        assert(pairs.drop_last().take(n) =~= pairs.take(n));
        lemma_pairs_size_grows(pairs.drop_last(), n);
    }
}

proof fn lemma_decode_first_byte(b: u8, rest: Seq<char>)
    ensures
        form_decode(form_byte(b) + rest) == seq![b] + form_decode(rest),
{
    let s = form_byte(b) + rest;
    if is_form_safe(b) {
        assert(s.drop_first() =~= rest);
        let one = seq![s[0]];
        assert(is_ascii_chars(one));
        vstd::utf8::is_ascii_chars_encode_utf8(one);
        assert(one[0] as u8 == b);
        assert(encode_utf8(one) =~= seq![b]);
    } else if b == ' ' as u8 {
        assert(s.drop_first() =~= rest);
    } else {
        assert(s.skip(3) =~= rest);
        assert(hex_value(hex_digit(b as int / 16)) == Some(b as int / 16));
        assert(hex_value(hex_digit(b as int % 16)) == Some(b as int % 16));
    }
}

proof fn lemma_form_bytes_decode(bytes: Seq<u8>)
    ensures
        form_decode(form_bytes(bytes)) == bytes,
    decreases bytes.len(),
{
    if bytes.len() > 0 {
        lemma_decode_first_byte(bytes[0], form_bytes(bytes.drop_first()));
        lemma_form_bytes_decode(bytes.drop_first());
        assert(seq![bytes[0]] + bytes.drop_first() =~= bytes);
    }
}

/// Law: a text reads back from its form encoding, whatever characters it holds.
pub proof fn law_form_encoding_reads_back(s: Seq<char>)
    ensures
        form_decode(form_encode(s)) == encode_utf8(s),
        decode_utf8(form_decode(form_encode(s))) == s,
{
    lemma_form_bytes_decode(encode_utf8(s));
    vstd::utf8::encode_utf8_decode_utf8(s);
}

proof fn lemma_cut_without(a: Seq<char>, c: char)
    requires
        !a.contains(c),
    ensures
        up_to(a, c) == a,
        behind(a, c) == Seq::<char>::empty(),
    decreases a.len(),
{
    if a.len() > 0 {
        assert(a[0] != c);
        assert forall|x: char| a.drop_first().contains(x) implies a.contains(x) by {
            let i = choose|i: int| 0 <= i < a.drop_first().len() && a.drop_first()[i] == x;
            assert(a[i + 1] == x);
        }
        lemma_cut_without(a.drop_first(), c);
        assert(seq![a[0]] + a.drop_first() =~= a);
    }
}

/// Where a text is cut that has a `c` behind `a`.
proof fn lemma_cut(a: Seq<char>, c: char, b: Seq<char>)
    ensures
        up_to(a + seq![c] + b, c) == up_to(a, c),
        a.contains(c) ==> behind(a + seq![c] + b, c) == behind(a, c) + seq![c] + b,
        !a.contains(c) ==> behind(a + seq![c] + b, c) == b,
    decreases a.len(),
{
    let s = a + seq![c] + b;
    if a.len() == 0 {
        assert(s.drop_first() =~= b);
    } else if a[0] == c {
        assert(a.contains(c));
        assert(s.drop_first() =~= a.drop_first() + seq![c] + b);
    } else {
        assert(s.drop_first() =~= a.drop_first() + seq![c] + b);
        lemma_cut(a.drop_first(), c, b);
        if a.contains(c) {
            let i = choose|i: int| 0 <= i < a.len() && a[i] == c;
            assert(a.drop_first()[i - 1] == c);
        }
        if a.drop_first().contains(c) {
            let i = choose|i: int| 0 <= i < a.drop_first().len() && a.drop_first()[i] == c;
            assert(a[i + 1] == c);
        }
    }
}

proof fn lemma_form_pairs_concat(a: Seq<char>, b: Seq<char>)
    ensures
        form_pairs(a + seq!['&'] + b) == form_pairs(a) + form_pairs(b),
    decreases a.len(),
{
    let s = a + seq!['&'] + b;
    lemma_cut(a, '&', b);
    if a.len() == 0 {
        assert(form_pairs(s) =~= form_pairs(a) + form_pairs(b));
    } else {
        lemma_behind_is_shorter(a, '&');
        if a.contains('&') {
            lemma_form_pairs_concat(behind(a, '&'), b);
        } else {
            lemma_cut_without(a, '&');
        }
        assert(form_pairs(behind(s, '&')) =~= form_pairs(behind(a, '&')) + form_pairs(b));
        assert(form_pairs(s) =~= form_pairs(a) + form_pairs(b));
    }
}

/// The bytes of a parameter.
pub open spec fn pair_bytes(pair: Pair) -> (Seq<u8>, Seq<u8>) {
    (encode_utf8(pair.0), encode_utf8(pair.1))
}

proof fn lemma_one_pair_survives(parts: UriParts, name: Seq<char>, value: Seq<char>)
    ensures
        parts.with_pair(name, value).pairs() == parts.pairs().push(pair_bytes((name, value))),
{
    let n = form_encode(name);
    let v = form_encode(value);
    let item = n + seq!['='] + v;
    lemma_form_bytes_are_plain(encode_utf8(name));
    lemma_form_bytes_are_plain(encode_utf8(value));
    lemma_form_bytes_decode(encode_utf8(name));
    lemma_form_bytes_decode(encode_utf8(value));
    assert(!item.contains('&'));
    assert(!n.contains('='));
    lemma_cut_without(item, '&');
    lemma_cut(n, '=', v);
    lemma_cut_without(n, '=');
    assert(form_pairs(Seq::<char>::empty()) == Seq::<(Seq<u8>, Seq<u8>)>::empty());
    assert(form_pairs(item) =~= seq![pair_bytes((name, value))]);
    let query = match parts.query {
        Some(query) => query,
        None => Seq::empty(),
    };
    if query.len() == 0 {
        assert(with_form_pair(query, name, value) =~= item);
        assert(parts.pairs() =~= Seq::empty());
    } else {
        assert(with_form_pair(query, name, value) =~= query + seq!['&'] + item);
        lemma_form_pairs_concat(query, item);
    }
    assert(parts.with_pair(name, value).pairs() =~= parts.pairs().push(pair_bytes((name, value))));
}

/// Law: whatever characters the appended parameters hold, reading the query gives back the
/// parameters that were there before and then the appended ones, in their order. The rest of the
/// URI stays as it was.
pub proof fn law_parameters_survive(parts: UriParts, pairs: Seq<Pair>)
    ensures
        parts.with_pairs(pairs).pairs() == parts.pairs() + pairs.map_values(
            |pair: Pair| pair_bytes(pair),
        ),
        parts.with_pairs(pairs).base == parts.base,
        parts.with_pairs(pairs).fragment == parts.fragment,
    decreases pairs.len(),
{
    lemma_with_pairs_keeps(parts, pairs);
    let bytes = pairs.map_values(|pair: Pair| pair_bytes(pair));
    if pairs.len() == 0 {
        assert(parts.pairs() + bytes =~= parts.pairs());
    } else {
        law_parameters_survive(parts, pairs.drop_last());
        lemma_one_pair_survives(
            parts.with_pairs(pairs.drop_last()),
            pairs.last().0,
            pairs.last().1,
        );
        assert(bytes.drop_last() =~= pairs.drop_last().map_values(|pair: Pair| pair_bytes(pair)));
        assert(bytes =~= bytes.drop_last().push(bytes.last()));
        assert(parts.with_pairs(pairs).pairs() =~= parts.pairs() + bytes);
    }
}

} // verus!
