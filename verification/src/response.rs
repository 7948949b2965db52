//! What came back from a request, as plain values, and how it is read.

use reqwest::header::{HeaderName, LOCATION};
use reqwest::StatusCode;
use vstd::prelude::*;
use vstd::utf8::{decode_utf8, valid_utf8};

verus! {

/// One header line of a reply: its name and its value, byte for byte.
pub struct Header {
    /// The header's name, in any mix of upper and lower case.
    pub name: Vec<u8>,
    /// The header's value.
    pub value: Vec<u8>,
}

/// The part of a reply that decisions are made on.
pub struct Response {
    /// The three-digit status code.
    pub status: u16,
    /// The header lines, in the order in which they arrived.
    pub headers: Vec<Header>,
}

/// Whether a status code belongs to the redirection class.
pub open spec fn is_redirect_code(status: u16) -> bool {
    300 <= status < 400
}

/// An upper-case ASCII letter as its lower-case letter; any other byte as it is.
pub open spec fn fold_case(byte: u8) -> u8 {
    if 65 <= byte <= 90 {
        (byte + 32) as u8
    } else {
        byte
    }
}

/// The bytes of the word `location`.
pub open spec fn location_name() -> Seq<u8> {
    seq![108u8, 111u8, 99u8, 97u8, 116u8, 105u8, 111u8, 110u8]
}

/// Whether a header's name is `location`, whatever the case of its letters.
pub open spec fn names_location(name: Seq<u8>) -> bool {
    name.map_values(|byte: u8| fold_case(byte)) =~= location_name()
}

/// The value of the first header from position `from` on that is named
/// `location`, if there is one.
pub open spec fn location_from(headers: Seq<Header>, from: int) -> Option<Seq<u8>>
    decreases headers.len() - from,
{
    if from < 0 || from >= headers.len() {
        None
    } else if names_location(headers[from].name@) {
        Some(headers[from].value@)
    } else {
        location_from(headers, from + 1)
    }
}

/// The value of the first header named `location`, if there is one.
pub open spec fn location_of(headers: Seq<Header>) -> Option<Seq<u8>> {
    location_from(headers, 0)
}

/// `StatusCode::from_u16` followed by `StatusCode::is_redirection`: the
/// answer is `true` exactly for the codes from 300 to 399. A number that is
/// no status code at all (below 100 or above 999) is refused by the first
/// call and counts as no redirection.
#[verifier::external_body]
pub(crate) fn status_is_redirection(status: u16) -> (redirects: bool)
    ensures
        redirects == is_redirect_code(status),
{
    match StatusCode::from_u16(status) {
        Ok(code) => code.is_redirection(),
        Err(_) => false,
    }
}

/// `HeaderName::from_bytes` followed by a comparison with the constant
/// `LOCATION`. The first call turns upper-case letters into lower-case ones
/// and refuses bytes that no header name may hold; the result then equals
/// `LOCATION` exactly when the folded bytes spell `location`.
#[verifier::external_body]
pub(crate) fn name_is_location(name: &[u8]) -> (found: bool)
    ensures
        found == names_location(name@),
{
    match HeaderName::from_bytes(name) {
        Ok(parsed) => parsed == LOCATION,
        Err(_) => false,
    }
}

/// `std::str::from_utf8`: bytes that are well-formed UTF-8 come back as the
/// string that they encode, and any other bytes as nothing.
#[verifier::external_body]
pub(crate) fn utf8_text(value: &[u8]) -> (text: Option<&str>)
    ensures
        valid_utf8(value@) ==> text is Some && text->Some_0@ == decode_utf8(value@),
        !valid_utf8(value@) ==> text is None,
{
    match std::str::from_utf8(value) {
        Ok(text) => Some(text),
        Err(_) => None,
    }
}

impl Response {
    /// Whether the reply's status is of the redirection class.
    pub fn is_redirection(&self) -> (redirects: bool)
        ensures
            redirects == is_redirect_code(self.status),
    {
        status_is_redirection(self.status)
    }

    /// The value of the first header named `location`, if the reply has one.
    pub fn location(&self) -> (value: Option<&Vec<u8>>)
        ensures
            match value {
                Some(bytes) => location_of(self.headers@) == Some(bytes@),
                None => location_of(self.headers@).is_none(),
            },
    {
        let mut i: usize = 0;
        while i < self.headers.len()
            invariant
                i <= self.headers.len(),
                location_of(self.headers@) == location_from(self.headers@, i as int),
            decreases self.headers.len() - i,
        {
            if name_is_location(self.headers[i].name.as_slice()) {
                return Some(&self.headers[i].value);
            }
            i += 1;
        }
        None
    }
}

/// The header that `location_of` picks is the first one named `location`:
/// it gives a value exactly when some header has that name, and then the
/// value of the one before which no other has it.
pub proof fn lemma_location_is_first(headers: Seq<Header>)
    ensures
        location_of(headers).is_some() <==> exists|i: int|
            0 <= i < headers.len() && names_location(#[trigger] headers[i].name@),
        forall|i: int|
            0 <= i < headers.len() && names_location(#[trigger] headers[i].name@) && (forall|j: int|
                0 <= j < i ==> !names_location(#[trigger] headers[j].name@)) ==> location_of(
                headers,
            ) == Some(headers[i].value@),
{
    lemma_location_from(headers, 0);
}

proof fn lemma_location_from(headers: Seq<Header>, from: int)
    requires
        0 <= from,
    ensures
        location_from(headers, from).is_some() <==> exists|i: int|
            from <= i < headers.len() && names_location(#[trigger] headers[i].name@),
        forall|i: int|
            from <= i < headers.len() && names_location(#[trigger] headers[i].name@) && (forall|
                j: int,
            |
                from <= j < i ==> !names_location(#[trigger] headers[j].name@))
                ==> location_from(headers, from) == Some(headers[i].value@),
    decreases headers.len() - from,
{
    if from < headers.len() {
        lemma_location_from(headers, from + 1);
        assert forall|i: int|
            from <= i < headers.len() && names_location(#[trigger] headers[i].name@) && (forall|
                j: int,
            |
                from <= j < i ==> !names_location(#[trigger] headers[j].name@)) implies location_from(
            headers,
            from,
        ) == Some(headers[i].value@) by {
            if i > from {
                assert(!names_location(headers[from].name@));
            }
        }
    }
}

} // verus!
