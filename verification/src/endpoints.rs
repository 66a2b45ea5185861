//! The addresses of the service's REST surface, under a base address.

use crate::model::PaperlessDefaultFieldType;
use vstd::prelude::*;
use vstd::string::*;

verus! {

/// The character of a decimal digit.
pub open spec fn digit(d: nat) -> char {
    if d == 0 {
        '0'
    } else if d == 1 {
        '1'
    } else if d == 2 {
        '2'
    } else if d == 3 {
        '3'
    } else if d == 4 {
        '4'
    } else if d == 5 {
        '5'
    } else if d == 6 {
        '6'
    } else if d == 7 {
        '7'
    } else if d == 8 {
        '8'
    } else {
        '9'
    }
}

/// The decimal numeral of `n`, without leading zeros.
pub open spec fn decimal(n: nat) -> Seq<char>
    decreases n,
{
    if n < 10 {
        seq![digit(n)]
    } else {
        decimal(n / 10).push(digit(n % 10))
    }
}

/// Where the documents that match `filter` are listed.
pub open spec fn documents_address(base: Seq<char>, filter: Seq<char>) -> Seq<char> {
    base + "/api/documents/?query="@ + filter
}

/// Where one document is updated.
pub open spec fn document_address(base: Seq<char>, id: nat) -> Seq<char> {
    base + "/api/documents/"@ + decimal(id) + "/"@
}

/// Where the custom fields are listed and created.
pub open spec fn custom_fields_address(base: Seq<char>) -> Seq<char> {
    base + "/api/custom_fields/"@
}

/// Where the entries of one taxonomy are listed and created.
pub open spec fn default_fields_address(base: Seq<char>, kind: PaperlessDefaultFieldType) -> Seq<
    char,
> {
    base + "/api/"@ + kind.endpoint() + "/"@
}

fn digit_char(d: u32) -> (c: char)
    requires
        d < 10,
    ensures
        c == digit(d as nat),
{
    match d {
        0 => '0',
        1 => '1',
        2 => '2',
        3 => '3',
        4 => '4',
        5 => '5',
        6 => '6',
        7 => '7',
        8 => '8',
        _ => '9',
    }
}

fn push_decimal(text: &mut String, n: u32)
    ensures
        final(text)@ == old(text)@ + decimal(n as nat),
    decreases n,
{
    if n >= 10 {
        push_decimal(text, n / 10);
    }
    text.push(digit_char(n % 10));
    assert(text@ =~= old(text)@ + decimal(n as nat));
}

/// The address that lists the documents matching `filter`.
pub fn documents_url(base_url: &str, filter: &str) -> (url: String)
    ensures
        url@ == documents_address(base_url@, filter@),
{
    String::from_str(base_url).concat("/api/documents/?query=").concat(filter)
}

/// The address of the document with the id `id`.
pub fn document_url(base_url: &str, id: u32) -> (url: String)
    ensures
        url@ == document_address(base_url@, id as nat),
{
    let mut url = String::from_str(base_url).concat("/api/documents/");
    push_decimal(&mut url, id);
    url.concat("/")
}

/// The address of the custom fields.
pub fn custom_fields_url(base_url: &str) -> (url: String)
    ensures
        url@ == custom_fields_address(base_url@),
{
    String::from_str(base_url).concat("/api/custom_fields/")
}

/// The address of the taxonomy `kind`.
pub fn default_fields_url(base_url: &str, kind: PaperlessDefaultFieldType) -> (url: String)
    ensures
        url@ == default_fields_address(base_url@, kind),
{
    String::from_str(base_url).concat("/api/").concat(kind.to_string()).concat("/")
}

} // verus!
