//! Header names and values: which of them can go on the wire.

use vstd::prelude::*;
use vstd::string::StringSliceAdditionalSpecFns;
use crate::error::{Error, ErrorView};
use crate::pairs::{pairs_or_error, PairList};

verus! {

/// A header name is shorter than this many bytes.
pub const NAME_LIMIT: usize = 65536;

/// A token character of the wire format: a letter, a digit, or one of
/// ``! # $ % & ' * + - . ^ _ ` | ~``.
pub open spec fn is_token_char(c: char) -> bool {
    ||| ('a' <= c && c <= 'z')
    ||| ('A' <= c && c <= 'Z')
    ||| ('0' <= c && c <= '9')
    ||| c == '!' || c == '#' || c == '$' || c == '%' || c == '&' || c == '\''
    ||| c == '*' || c == '+' || c == '-' || c == '.'
    ||| c == '^' || c == '_' || c == '`' || c == '|' || c == '~'
}

/// A name that can go on the wire: a token, not empty, under [`NAME_LIMIT`].
pub open spec fn valid_header_name(name: Seq<char>) -> bool {
    &&& 0 < name.len() < NAME_LIMIT
    &&& forall|i: int| 0 <= i < name.len() ==> is_token_char(#[trigger] name[i])
}

/// A byte that `hyper::header::HeaderName` takes in a name: a token character
/// or the double quote.
pub open spec fn name_byte_taken(b: u8) -> bool {
    ||| (0x61 <= b && b <= 0x7a)
    ||| (0x41 <= b && b <= 0x5a)
    ||| (0x30 <= b && b <= 0x39)
    ||| b == 0x21 || b == 0x22 || b == 0x23 || b == 0x24 || b == 0x25 || b == 0x26 || b == 0x27
    ||| b == 0x2a || b == 0x2b || b == 0x2d || b == 0x2e
    ||| b == 0x5e || b == 0x5f || b == 0x60 || b == 0x7c || b == 0x7e
}

/// A byte that can stand in a header value: a tab, or anything from the space
/// upwards but DEL.
pub open spec fn value_byte_taken(b: u8) -> bool {
    b == 9 || (b >= 32 && b != 127)
}

/// A value that can go on the wire: every byte of its UTF-8 form can.
pub open spec fn valid_header_value(value: Seq<char>) -> bool {
    forall|i: int|
        0 <= i < vstd::utf8::encode_utf8(value).len() ==> value_byte_taken(
            #[trigger] vstd::utf8::encode_utf8(value)[i],
        )
}

/// Asks `hyper::header::HeaderName::from_bytes` whether it takes `name`.
///
/// Trusted: it takes a name that is not empty and made of the bytes of
/// [`name_byte_taken`]. It panics on 65536 bytes or more, which `requires`
/// leaves out.
#[verifier::external_body]
pub(crate) fn name_taken(name: &str) -> (r: bool)
    requires
        name.spec_bytes().len() < NAME_LIMIT,
    ensures
        r == (name.spec_bytes().len() > 0 && forall|i: int|
            0 <= i < name.spec_bytes().len() ==> name_byte_taken(#[trigger] name.spec_bytes()[i])),
{
    hyper::header::HeaderName::from_bytes(name.as_bytes()).is_ok()
}

/// Asks `hyper::header::HeaderValue::from_bytes` whether it takes `value`.
///
/// Trusted: it takes a value whose every byte is a tab, or at least 32 and
/// not 127.
#[verifier::external_body]
pub(crate) fn value_taken(value: &str) -> (r: bool)
    ensures
        r == valid_header_value(value@),
{
    hyper::header::HeaderValue::from_bytes(value.as_bytes()).is_ok()
}

/// Whether a byte sequence holds the double quote.
fn has_quote(bytes: &[u8]) -> (r: bool)
    ensures
        r == (exists|i: int| 0 <= i < bytes@.len() && bytes@[i] == 0x22),
{
    let mut i: usize = 0;
    while i < bytes.len()
        invariant
            i <= bytes.len(),
            forall|j: int| 0 <= j < i ==> bytes@[j] != 0x22,
        decreases bytes.len() - i,
    {
        if bytes[i] == 0x22 {
            return true;
        }
        i = i + 1;
    }
    false
}

/// Whether `name` can go on the wire as a header name.
///
/// The header type of the HTTP library decides, within the length it
/// handles; a name with a double quote, which that type lets through, is
/// refused here, as the token rule asks.
pub fn check_header_name(name: &str) -> (r: bool)
    ensures
        r == valid_header_name(name@),
{
    broadcast use vstd::string::is_ascii_spec_bytes;

    if !name.is_ascii() {
        assert(!valid_header_name(name@)) by {
            let i = choose|i: int| 0 <= i < name@.len() && !('\0' <= #[trigger] name@[i] <= '\u{7f}');
            assert(!is_token_char(name@[i]));
        }
        return false;
    }
    assert(name.spec_bytes().len() == name@.len());
    assert(forall|i: int| 0 <= i < name@.len() ==> name.spec_bytes()[i] == name@[i] as u8);
    let bytes = name.as_bytes();
    if bytes.len() >= NAME_LIMIT {
        return false;
    }
    let taken = name_taken(name);
    let quoted = has_quote(bytes);
    proof {
        assert forall|i: int| 0 <= i < name@.len() implies (is_token_char(#[trigger] name@[i]) <==> (
            name_byte_taken(name.spec_bytes()[i]) && name.spec_bytes()[i] != 0x22)) by {
            let c = name@[i];
            assert('\0' <= c <= '\u{7f}');
            assert(name.spec_bytes()[i] == c as u8);
        }
        if taken && !quoted {
            assert(valid_header_name(name@));
        } else {
            assert(!valid_header_name(name@));
        }
    }
    taken && !quoted
}

/// Whether `value` can go on the wire as a header value.
pub fn check_header_value(value: &str) -> (r: bool)
    ensures
        r == valid_header_value(value@),
{
    value_taken(value)
}

/// Whether a header, name and value, can go on the wire.
pub open spec fn header_ok(header: (Seq<char>, Seq<char>)) -> bool {
    valid_header_name(header.0) && valid_header_value(header.1)
}

/// The index of the first header from `from` on that cannot go on the wire;
/// the length of the list if all can.
pub open spec fn first_bad_header(list: Seq<(Seq<char>, Seq<char>)>, from: int) -> int
    decreases list.len() - from,
{
    if from < 0 || from >= list.len() {
        list.len() as int
    } else if !header_ok(list[from]) {
        from
    } else {
        first_bad_header(list, from + 1)
    }
}

/// Every header of the list can go on the wire.
pub open spec fn all_headers_ok(list: Seq<(Seq<char>, Seq<char>)>) -> bool {
    forall|i: int| 0 <= i < list.len() ==> header_ok(#[trigger] list[i])
}

/// The list itself where every header can go on the wire, else
/// `InvalidHeader` with the first one that cannot.
pub open spec fn checked_headers(list: Seq<(Seq<char>, Seq<char>)>) -> Result<
    Seq<(Seq<char>, Seq<char>)>,
    ErrorView,
> {
    let at = first_bad_header(list, 0);
    if at < list.len() {
        Err(ErrorView::InvalidHeader { name: list[at].0, value: list[at].1 })
    } else {
        Ok(list)
    }
}

/// Nothing before the first bad header is bad, and with none bad all are good.
pub proof fn lemma_first_bad_header(list: Seq<(Seq<char>, Seq<char>)>, from: int)
    requires
        0 <= from <= list.len(),
    ensures
        from <= first_bad_header(list, from) <= list.len(),
        forall|i: int| from <= i < first_bad_header(list, from) ==> header_ok(#[trigger] list[i]),
        first_bad_header(list, from) < list.len() ==> !header_ok(list[first_bad_header(list, from)]),
    decreases list.len() - from,
{
    if from < list.len() && header_ok(list[from]) {
        lemma_first_bad_header(list, from + 1);
    }
}

/// Finds the first header of the list that cannot go on the wire.
pub fn find_bad_header(list: &PairList) -> (at: usize)
    ensures
        at == first_bad_header(list@, 0),
{
    let mut i: usize = 0;
    while i < list.pairs.len()
        invariant
            i <= list.pairs.len(),
            first_bad_header(list@, 0) == first_bad_header(list@, i as int),
        decreases list.pairs.len() - i,
    {
        let name_ok = check_header_name(list.pairs[i].0.as_str());
        let value_ok = check_header_value(list.pairs[i].1.as_str());
        if !(name_ok && value_ok) {
            return i;
        }
        i = i + 1;
    }
    i
}

/// Checks a list of headers as a whole: all of them are kept, or none is and
/// the first bad one is named.
pub fn check_headers(list: PairList) -> (r: Result<PairList, Error>)
    ensures
        pairs_or_error(r) == checked_headers(list@),
        r is Ok <==> all_headers_ok(list@),
{
    let at = find_bad_header(&list);
    proof {
        lemma_first_bad_header(list@, 0);
    }
    if at < list.pairs.len() {
        let name = list.pairs[at].0.clone();
        let value = list.pairs[at].1.clone();
        Err(Error::InvalidHeader { name, value })
    } else {
        Ok(list)
    }
}

} // verus!
