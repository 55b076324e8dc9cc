//! Network endpoints of the servers.

use crate::error::Error;
use crate::id::hex_digit;
use crate::text::{decimal, decimal_text};
use vstd::prelude::*;
use vstd::string::*;

verus! {

/// How an endpoint is spoken to.
#[derive(Clone, Copy, Debug, PartialEq, Eq, Structural)]
pub enum Scheme {
    Http,
    Https,
}

/// A character that may stand in a host name.
pub open spec fn is_host_char(c: char) -> bool {
    ('a' <= c && c <= 'z') || ('A' <= c && c <= 'Z') || ('0' <= c && c <= '9') || c == '.' || c
        == '-' || c == '_'
}

/// A decimal digit.
pub open spec fn is_digit(c: char) -> bool {
    '0' <= c && c <= '9'
}

/// Whether `text` begins with `prefix`.
pub open spec fn starts_with(text: Seq<char>, prefix: Seq<char>) -> bool {
    prefix.len() <= text.len() && text.subrange(0, prefix.len() as int) == prefix
}

/// The index of the first character at or after `from` that cannot stand in
/// a host name, or the length of the text if there is none.
pub open spec fn host_end(text: Seq<char>, from: int) -> int
    decreases text.len() - from,
{
    if 0 <= from < text.len() && is_host_char(text[from]) {
        host_end(text, from + 1)
    } else {
        from
    }
}

/// The number that the digits `text[from..upto]` spell.
pub open spec fn digits_value(text: Seq<char>, from: int, upto: int) -> int
    decreases upto - from,
{
    if upto <= from {
        0
    } else {
        digits_value(text, from, upto - 1) * 10 + (text[upto - 1] as int - '0' as int)
    }
}

/// Whether `text[from..]` is a port number: one to five digits that spell a
/// number of at most 65535.
pub open spec fn is_port(text: Seq<char>, from: int) -> bool {
    &&& 1 <= text.len() - from <= 5
    &&& forall|i: int| from <= i < text.len() ==> is_digit(#[trigger] text[i])
    &&& digits_value(text, from, text.len() as int) <= 65535
}

/// The mathematical value of an [`Address`].
pub struct AddressView {
    pub scheme: Scheme,
    pub host: Seq<char>,
    pub port: u16,
}

impl AddressView {
    /// The canonical text of the endpoint: host, colon, port.
    pub open spec fn canonical(self) -> Seq<char> {
        self.host + seq![':'] + decimal(self.port as nat)
    }
}

/// What `host:port` after an optional scheme means, where it means anything.
pub open spec fn parse_authority(scheme: Scheme, text: Seq<char>) -> Option<AddressView> {
    let colon = host_end(text, 0);
    if 0 < colon < text.len() && text[colon] == ':' && is_port(text, colon + 1) {
        Some(
            AddressView {
                scheme,
                host: text.subrange(0, colon),
                port: digits_value(text, colon + 1, text.len() as int) as u16,
            },
        )
    } else {
        None
    }
}

/// What an address text means, where it means anything: an optional
/// `http://` or `https://`, a host name, a colon and a port number.
pub open spec fn parse_address(text: Seq<char>) -> Option<AddressView> {
    if starts_with(text, "https://"@) {
        parse_authority(Scheme::Https, text.skip(8))
    } else if starts_with(text, "http://"@) {
        parse_authority(Scheme::Http, text.skip(7))
    } else {
        parse_authority(Scheme::Http, text)
    }
}

/// A parsed network endpoint.
#[derive(Debug)]
pub struct Address {
    scheme: Scheme,
    host: String,
    port: u16,
}

impl View for Address {
    type V = AddressView;

    closed spec fn view(&self) -> AddressView {
        AddressView { scheme: self.scheme, host: self.host@, port: self.port }
    }
}

impl Clone for Address {
    fn clone(&self) -> (res: Self)
        ensures
            res@ == self@,
    {
        Address { scheme: self.scheme, host: self.host.clone(), port: self.port }
    }
}

fn has_prefix(text: &str, length: usize, prefix: &str) -> (yes: bool)
    requires
        length == text@.len(),
    ensures
        yes == starts_with(text@, prefix@),
{
    let n = prefix.unicode_len();
    if n > length {
        return false;
    }
    let mut i: usize = 0;
    while i < n
        invariant
            n == prefix@.len(),
            n <= length,
            length == text@.len(),
            i <= n,
            forall|j: int| 0 <= j < i ==> text@[j] == prefix@[j],
        decreases n - i,
    {
        if text.get_char(i) != prefix.get_char(i) {
            assert(text@.subrange(0, n as int)[i as int] != prefix@[i as int]);
            return false;
        }
        i += 1;
    }
    assert(text@.subrange(0, n as int) =~= prefix@);
    true
}

fn parse_authority_text(scheme: Scheme, text: &str) -> (res: Option<Address>)
    ensures
        match res {
            Some(address) => parse_authority(scheme, text@) == Some(address@),
            None => parse_authority(scheme, text@) is None,
        },
{
    let n = text.unicode_len();
    let mut colon: usize = 0;
    while colon < n
        invariant
            n == text@.len(),
            colon <= n,
            host_end(text@, 0) == host_end(text@, colon as int),
        ensures
            colon <= n,
            host_end(text@, 0) == colon,
        decreases n - colon,
    {
        let c = text.get_char(colon);
        let host_char = ('a' <= c && c <= 'z') || ('A' <= c && c <= 'Z') || ('0' <= c && c <= '9')
            || c == '.' || c == '-' || c == '_';
        if !host_char {
            break;
        }
        colon += 1;
    }
    if colon == 0 || colon >= n {
        return None;
    }
    if text.get_char(colon) != ':' {
        return None;
    }
    let first = colon + 1;
    if n - first < 1 || n - first > 5 {
        return None;
    }
    let mut value: u32 = 0;
    let mut i: usize = first;
    while i < n
        invariant
            n == text@.len(),
            first <= i <= n,
            n - first <= 5,
            first == colon + 1,
            host_end(text@, 0) == colon,
            forall|j: int| first <= j < i ==> is_digit(#[trigger] text@[j]),
            value == digits_value(text@, first as int, i as int),
            value < pow10(i - first),
        decreases n - i,
    {
        let c = text.get_char(i);
        if !('0' <= c && c <= '9') {
            assert(!is_digit(text@[i as int]));
            return None;
        }
        value = value * 10 + (c as u32 - '0' as u32);
        i += 1;
    }
    if value > 65535 {
        return None;
    }
    let host = text.substring_char(0, colon);
    Some(Address { scheme, host: host.to_owned(), port: value as u16 })
}

/// Ten to the power `n`, for the few digits of a port number.
pub open spec fn pow10(n: int) -> int {
    if n <= 0 {
        1
    } else if n == 1 {
        10
    } else if n == 2 {
        100
    } else if n == 3 {
        1000
    } else if n == 4 {
        10000
    } else {
        100000
    }
}

impl Address {
    /// Parses an endpoint: an optional `http://` or `https://`, a host name
    /// of letters, digits, dots, hyphens and underscores, a colon, and a port
    /// number of at most 65535. Without a scheme the endpoint is `http`.
    /// Any other text is refused with an `Other` error.
    pub fn parse(text: &str) -> (res: Result<Address, Error>)
        ensures
            match res {
                Ok(address) => parse_address(text@) == Some(address@),
                Err(error) => parse_address(text@) is None && error@ is Other,
            },
    {
        proof {
            reveal_strlit("https://");
            reveal_strlit("http://");
        }
        let n = text.unicode_len();
        let parsed = if has_prefix(text, n, "https://") {
            parse_authority_text(Scheme::Https, text.substring_char(8, n))
        } else if has_prefix(text, n, "http://") {
            parse_authority_text(Scheme::Http, text.substring_char(7, n))
        } else {
            parse_authority_text(Scheme::Http, text)
        };
        match parsed {
            Some(address) => Ok(address),
            None => {
                let mut message = String::from_str("invalid address: ");
                message.append(text);
                Err(Error::Other(message))
            },
        }
    }

    /// How the endpoint is spoken to.
    pub fn scheme(&self) -> (scheme: Scheme)
        ensures
            scheme == self@.scheme,
    {
        self.scheme
    }

    /// The host name.
    pub fn host(&self) -> (host: &str)
        ensures
            host@ == self@.host,
    {
        self.host.as_str()
    }

    /// The port number.
    pub fn port(&self) -> (port: u16)
        ensures
            port == self@.port,
    {
        self.port
    }

    /// The canonical text of the endpoint: host, colon, port.
    pub fn to_string(&self) -> (text: String)
        ensures
            text@ == self@.canonical(),
    {
        proof {
            reveal_strlit(":");
        }
        let mut text = self.host.clone();
        text.append(":");
        let port = decimal_text(self.port as u64);
        text.append(port.as_str());
        assert(text@ =~= self@.canonical());
        text
    }

    /// Whether two endpoints are the same: they are when their canonical
    /// texts are.
    pub fn same_as(&self, other: &Address) -> (same: bool)
        ensures
            same == (self@.canonical() == other@.canonical()),
    {
        let mine = self.to_string();
        let theirs = other.to_string();
        mine == theirs
    }
}

impl AddressView {
    /// What a parsed endpoint is made of: a host name of at least one
    /// character, each of which may stand in a host name.
    pub open spec fn wf(self) -> bool {
        &&& self.host.len() > 0
        &&& forall|i: int| 0 <= i < self.host.len() ==> is_host_char(#[trigger] self.host[i])
    }
}

proof fn lemma_decimal_is_digits(n: nat)
    ensures
        decimal(n).len() >= 1,
        forall|i: int| 0 <= i < decimal(n).len() ==> is_digit(#[trigger] decimal(n)[i]),
        digits_value(decimal(n), 0, decimal(n).len() as int) == n,
        n < 10 ==> decimal(n).len() == 1,
        10 <= n < 100 ==> decimal(n).len() == 2,
        100 <= n < 1000 ==> decimal(n).len() == 3,
        1000 <= n < 10000 ==> decimal(n).len() == 4,
        10000 <= n < 100000 ==> decimal(n).len() == 5,
    decreases n,
{
    let text = decimal(n);
    if n < 10 {
        assert(text =~= seq![hex_digit(n as int)]);
        assert(text[0] as int - '0' as int == n);
        assert(digits_value(text, 0, 0) == 0);
        assert(digits_value(text, 0, 1) == digits_value(text, 0, 0) * 10 + (text[0] as int
            - '0' as int));
    } else {
        lemma_decimal_is_digits(n / 10);
        let head = decimal(n / 10);
        let last = hex_digit((n % 10) as int);
        assert(text == head.push(last));
        assert(last as int - '0' as int == n % 10);
        assert forall|i: int| 0 <= i < text.len() implies is_digit(#[trigger] text[i]) by {
            if i < head.len() {
                assert(text[i] == head[i]);
            }
        }
        lemma_digits_value_of_prefix(text, head, 0, head.len() as int);
        assert(digits_value(text, 0, text.len() as int) == digits_value(
            text,
            0,
            text.len() - 1,
        ) * 10 + (text[text.len() - 1] as int - '0' as int));
    }
}

/// The digits of a part of a text spell what they spell in the part alone.
proof fn lemma_digits_value_of_prefix(text: Seq<char>, part: Seq<char>, from: int, upto: int)
    requires
        0 <= from,
        0 <= upto <= part.len(),
        from + part.len() <= text.len(),
        forall|i: int| 0 <= i < part.len() ==> text[from + i] == #[trigger] part[i],
    ensures
        digits_value(text, from, from + upto) == digits_value(part, 0, upto),
    decreases upto,
{
    if upto > 0 {
        lemma_digits_value_of_prefix(text, part, from, upto - 1);
        assert(text[from + upto - 1] == part[upto - 1]);
    }
}

proof fn lemma_host_end(text: Seq<char>, host: Seq<char>, from: int)
    requires
        0 <= from <= host.len(),
        host.len() < text.len(),
        forall|i: int| 0 <= i < host.len() ==> text[i] == #[trigger] host[i],
        forall|i: int| 0 <= i < host.len() ==> is_host_char(#[trigger] host[i]),
        !is_host_char(text[host.len() as int]),
    ensures
        host_end(text, from) == host.len(),
    decreases host.len() - from,
{
    if from < host.len() {
        assert(text[from] == host[from]);
        lemma_host_end(text, host, from + 1);
    }
}

/// An endpoint reads back from its canonical text: parsing the text gives
/// the host and the port again, over `http`.
pub proof fn lemma_canonical_text_parses_back(address: AddressView)
    requires
        address.wf(),
    ensures
        parse_address(address.canonical()) == Some(
            AddressView { scheme: Scheme::Http, host: address.host, port: address.port },
        ),
{
    let host = address.host;
    let digits = decimal(address.port as nat);
    let text = address.canonical();
    let colon = host.len() as int;
    lemma_decimal_is_digits(address.port as nat);
    assert(text == host + seq![':'] + digits);
    assert(text.len() == host.len() + 1 + digits.len());
    assert(text[colon] == ':');
    assert forall|i: int| 0 <= i < host.len() implies text[i] == #[trigger] host[i] by {}
    assert forall|i: int| 0 <= i < digits.len() implies text[colon + 1 + i] == #[trigger] digits[i] by {}
    lemma_host_end(text, host, 0);
    lemma_digits_value_of_prefix(text, digits, colon + 1, digits.len() as int);
    assert(text.subrange(0, colon) =~= host);
    assert forall|i: int| colon + 1 <= i < text.len() implies is_digit(#[trigger] text[i]) by {
        assert(text[i] == digits[i - colon - 1]);
    }
    assert(is_port(text, colon + 1));
    assert(parse_authority(Scheme::Http, text) == Some(
        AddressView { scheme: Scheme::Http, host: address.host, port: address.port },
    ));
    // The text does not begin with a scheme: where a scheme has its colon
    // and slashes, the text has a character of the host, the colon before
    // the port where a slash would have to stand, or a digit.
    reveal_strlit("https://");
    reveal_strlit("http://");
    if starts_with(text, "https://"@) {
        let prefix = text.subrange(0, 8);
        assert(prefix[5] == ':' && prefix[6] == '/');
        assert(text[5] == ':' && text[6] == '/');
        if colon > 5 {
            assert(is_host_char(host[5]));
        } else if colon == 5 {
            assert(is_digit(text[6]));
        } else {
            assert(prefix[colon] == text[colon]);
        }
        assert(false);
    }
    if starts_with(text, "http://"@) {
        let prefix = text.subrange(0, 7);
        assert(prefix[4] == ':' && prefix[5] == '/');
        assert(text[4] == ':' && text[5] == '/');
        if colon > 4 {
            assert(is_host_char(host[4]));
        } else if colon == 4 {
            assert(is_digit(text[5]));
        } else {
            assert(prefix[colon] == text[colon]);
        }
        assert(false);
    }
}

/// What is parsed is well formed.
pub proof fn lemma_parsed_is_well_formed(text: Seq<char>)
    ensures
        parse_address(text) matches Some(address) ==> address.wf(),
{
    reveal_strlit("https://");
    reveal_strlit("http://");
    if starts_with(text, "https://"@) {
        lemma_host_prefix(text.skip(8), 0);
    } else if starts_with(text, "http://"@) {
        lemma_host_prefix(text.skip(7), 0);
    } else {
        lemma_host_prefix(text, 0);
    }
}

proof fn lemma_host_prefix(text: Seq<char>, from: int)
    requires
        0 <= from <= text.len(),
    ensures
        from <= host_end(text, from) <= text.len(),
        forall|i: int| from <= i < host_end(text, from) ==> is_host_char(#[trigger] text[i]),
    decreases text.len() - from,
{
    if from < text.len() && is_host_char(text[from]) {
        lemma_host_prefix(text, from + 1);
    }
}

} // verus!
