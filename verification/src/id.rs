//! Opaque identifiers of sessions and requests.

use crate::error::Error;
use vstd::prelude::*;
use vstd::string::*;

verus! {

/// The lower-case hexadecimal digit of a number below sixteen.
pub open spec fn hex_digit(n: int) -> char {
    if n == 0 {
        '0'
    } else if n == 1 {
        '1'
    } else if n == 2 {
        '2'
    } else if n == 3 {
        '3'
    } else if n == 4 {
        '4'
    } else if n == 5 {
        '5'
    } else if n == 6 {
        '6'
    } else if n == 7 {
        '7'
    } else if n == 8 {
        '8'
    } else if n == 9 {
        '9'
    } else if n == 10 {
        'a'
    } else if n == 11 {
        'b'
    } else if n == 12 {
        'c'
    } else if n == 13 {
        'd'
    } else if n == 14 {
        'e'
    } else {
        'f'
    }
}

/// Two lower-case hexadecimal digits per byte, high nibble first.
pub open spec fn hex_string(bytes: Seq<u8>) -> Seq<char>
    decreases bytes.len(),
{
    if bytes.len() == 0 {
        Seq::empty()
    } else {
        hex_string(bytes.drop_last()).push(hex_digit(bytes.last() as int / 16)).push(
            hex_digit(bytes.last() as int % 16),
        )
    }
}

/// What a freshly generated identifier looks like: sixteen bytes that carry
/// the version and variant marks of a random UUID.
pub open spec fn is_random_uuid(bytes: Seq<u8>) -> bool {
    &&& bytes.len() == 16
    &&& bytes[6] / 16 == 4
    &&& bytes[8] / 64 == 2
}

/// Calls `uuid::Uuid::new_v4` and copies the sixteen bytes that `as_bytes`
/// exposes. The bytes are random, so the contract states only what holds of
/// every random UUID: the length, the version nibble and the variant bits.
/// Where the system has no source of randomness uuid panics.
#[verifier::external_body]
fn random_uuid_bytes() -> (bytes: Vec<u8>)
    ensures
        is_random_uuid(bytes@),
{
    uuid::Uuid::new_v4().as_bytes().to_vec()
}

/// Whether two byte vectors hold the same bytes.
pub fn bytes_equal(a: &Vec<u8>, b: &Vec<u8>) -> (same: bool)
    ensures
        same == (a@ == b@),
{
    if a.len() != b.len() {
        return false;
    }
    let mut i: usize = 0;
    while i < a.len()
        invariant
            a.len() == b.len(),
            i <= a.len(),
            forall|j: int| 0 <= j < i ==> a@[j] == b@[j],
        decreases a.len() - i,
    {
        if a[i] != b[i] {
            return false;
        }
        i += 1;
    }
    assert(a@ =~= b@);
    true
}

/// A copy of a byte vector.
pub fn bytes_clone(a: &Vec<u8>) -> (copy: Vec<u8>)
    ensures
        copy@ == a@,
{
    let mut copy: Vec<u8> = Vec::new();
    let mut i: usize = 0;
    while i < a.len()
        invariant
            i <= a.len(),
            copy@ == a@.subrange(0, i as int),
        decreases a.len() - i,
    {
        copy.push(a[i]);
        assert(copy@ =~= a@.subrange(0, i + 1));
        i += 1;
    }
    assert(a@.subrange(0, a.len() as int) =~= a@);
    copy
}

pub(crate) fn hex_digit_str(n: u8) -> (s: &'static str)
    requires
        n < 16,
    ensures
        s@ == seq![hex_digit(n as int)],
{
    proof {
        reveal_strlit("0");
        reveal_strlit("1");
        reveal_strlit("2");
        reveal_strlit("3");
        reveal_strlit("4");
        reveal_strlit("5");
        reveal_strlit("6");
        reveal_strlit("7");
        reveal_strlit("8");
        reveal_strlit("9");
        reveal_strlit("a");
        reveal_strlit("b");
        reveal_strlit("c");
        reveal_strlit("d");
        reveal_strlit("e");
        reveal_strlit("f");
    }
    let s = if n == 0 {
        "0"
    } else if n == 1 {
        "1"
    } else if n == 2 {
        "2"
    } else if n == 3 {
        "3"
    } else if n == 4 {
        "4"
    } else if n == 5 {
        "5"
    } else if n == 6 {
        "6"
    } else if n == 7 {
        "7"
    } else if n == 8 {
        "8"
    } else if n == 9 {
        "9"
    } else if n == 10 {
        "a"
    } else if n == 11 {
        "b"
    } else if n == 12 {
        "c"
    } else if n == 13 {
        "d"
    } else if n == 14 {
        "e"
    } else {
        "f"
    };
    assert(s@ =~= seq![hex_digit(n as int)]);
    s
}

/// An identifier: an opaque string of bytes. Sessions get theirs from the
/// server, requests get theirs from the client.
#[derive(Debug)]
pub struct ID(Vec<u8>);

impl View for ID {
    type V = Seq<u8>;

    closed spec fn view(&self) -> Seq<u8> {
        self.0@
    }
}

impl Clone for ID {
    fn clone(&self) -> (res: Self)
        ensures
            res@ == self@,
    {
        ID(bytes_clone(&self.0))
    }
}

impl ID {
    /// A fresh identifier for a request.
    pub fn generate() -> (id: Self)
        ensures
            is_random_uuid(id@),
    {
        ID(random_uuid_bytes())
    }

    /// The identifier that wraps the given bytes.
    pub fn from_bytes(bytes: Vec<u8>) -> (id: Self)
        ensures
            id@ == bytes@,
    {
        ID(bytes)
    }

    /// The bytes of the identifier.
    pub fn into_bytes(self) -> (bytes: Vec<u8>)
        ensures
            bytes@ == self@,
    {
        self.0
    }

    /// The bytes of the identifier, borrowed.
    pub fn as_bytes(&self) -> (bytes: &Vec<u8>)
        ensures
            bytes@ == self@,
    {
        &self.0
    }

    /// Whether two identifiers hold the same bytes.
    pub fn same_as(&self, other: &ID) -> (same: bool)
        ensures
            same == (self@ == other@),
    {
        bytes_equal(&self.0, &other.0)
    }

    /// The identifier as it is shown in diagnostics: `ID[`, its hexadecimal
    /// text, `]`.
    pub fn debug_text(&self) -> (text: String)
        ensures
            text@ == "ID["@ + hex_string(self@) + "]"@,
    {
        let mut text = String::from_str("ID[");
        let hex = self.to_hex();
        text.append(hex.as_str());
        text.append("]");
        text
    }

    /// The identifier as lower-case hexadecimal text, two digits per byte.
    pub fn to_hex(&self) -> (text: String)
        ensures
            text@ == hex_string(self@),
    {
        let mut text = String::new();
        let mut i: usize = 0;
        assert(self.0@.subrange(0, 0) =~= Seq::<u8>::empty());
        while i < self.0.len()
            invariant
                i <= self.0.len(),
                text@ == hex_string(self.0@.subrange(0, i as int)),
            decreases self.0.len() - i,
        {
            let byte = self.0[i];
            let high = hex_digit_str(byte / 16);
            let low = hex_digit_str(byte % 16);
            text.append(high);
            text.append(low);
            proof {
                let prefix = self.0@.subrange(0, i + 1);
                assert(prefix.drop_last() =~= self.0@.subrange(0, i as int));
                assert(prefix.last() == byte);
                assert(text@ =~= hex_string(prefix.drop_last()).push(
                    hex_digit(byte as int / 16),
                ).push(hex_digit(byte as int % 16)));
            }
            i += 1;
        }
        assert(self.0@.subrange(0, self.0.len() as int) =~= self.0@);
        text
    }
}

/// The value of the byte of a hexadecimal digit, of either case.
pub open spec fn hex_byte_value(byte: u8) -> Option<int> {
    if 48 <= byte <= 57 {
        Some(byte - 48)
    } else if 97 <= byte <= 102 {
        Some(byte - 87)
    } else if 65 <= byte <= 70 {
        Some(byte - 55)
    } else {
        None
    }
}

/// The number that two bytes spell in hexadecimal: two digits, or a plus
/// sign and one digit.
pub open spec fn hex_pair_value(high: u8, low: u8) -> Option<int> {
    match hex_byte_value(low) {
        None => None,
        Some(l) => if high == 43 {
            Some(l)
        } else {
            match hex_byte_value(high) {
                None => None,
                Some(h) => Some(h * 16 + l),
            }
        },
    }
}

/// Whether the bytes of a text spell an instance id: two bytes that are
/// passed over, then pairs that each spell a number in hexadecimal.
pub open spec fn is_iid_text(bytes: Seq<u8>) -> bool {
    bytes.len() < 2 || (bytes.len() % 2 == 0 && forall|k: int|
        1 <= k < bytes.len() / 2 ==> (#[trigger] hex_pair_value(bytes[2 * k], bytes[2 * k + 1]))
            is Some)
}

/// The instance id that the bytes of a text spell.
pub open spec fn iid_of(bytes: Seq<u8>) -> Seq<u8> {
    if bytes.len() < 2 {
        Seq::empty()
    } else {
        Seq::new(
            (bytes.len() / 2 - 1) as nat,
            |k: int| hex_pair_value(bytes[2 * k + 2], bytes[2 * k + 3]).unwrap() as u8,
        )
    }
}

fn hex_byte(byte: u8) -> (value: Option<u8>)
    ensures
        match value {
            Some(v) => hex_byte_value(byte) == Some(v as int) && v < 16,
            None => hex_byte_value(byte) is None,
        },
{
    if 48 <= byte && byte <= 57 {
        Some(byte - 48)
    } else if 97 <= byte && byte <= 102 {
        Some(byte - 87)
    } else if 65 <= byte && byte <= 70 {
        Some(byte - 55)
    } else {
        None
    }
}

fn hex_pair(high: u8, low: u8) -> (value: Option<u8>)
    ensures
        match value {
            Some(v) => hex_pair_value(high, low) == Some(v as int),
            None => hex_pair_value(high, low) is None,
        },
{
    match hex_byte(low) {
        None => None,
        Some(l) => {
            if high == 43 {
                Some(l)
            } else {
                match hex_byte(high) {
                    None => None,
                    Some(h) => Some(h * 16 + l),
                }
            }
        },
    }
}

/// Reads an instance id from its text: the first two bytes, the `0x` of
/// the usual form, are passed over, and each pair of bytes after them is one
/// byte of the id in hexadecimal. Fails with an `Other` error exactly when
/// the bytes are odd in number or a pair is no hexadecimal number.
pub fn iid_from_str(text: &str) -> (res: Result<Vec<u8>, Error>)
    ensures
        match res {
            Ok(iid) => is_iid_text(text.spec_bytes()) && iid@ == iid_of(text.spec_bytes()),
            Err(error) => !is_iid_text(text.spec_bytes()) && error@ is Other,
        },
{
    let bytes = text.as_bytes();
    let n = bytes.len();
    let mut iid: Vec<u8> = Vec::new();
    if n < 2 {
        assert(iid@ =~= iid_of(bytes@));
        return Ok(iid);
    }
    if n % 2 != 0 {
        return Err(Error::Other(String::from_str("invalid instance id: odd number of digits")));
    }
    let mut i: usize = 2;
    while i < n
        invariant
            bytes@ == text.spec_bytes(),
            n == bytes@.len(),
            n % 2 == 0,
            2 <= i <= n,
            i % 2 == 0,
            iid@.len() == i / 2 - 1,
            forall|k: int|
                1 <= k < i / 2 ==> (#[trigger] hex_pair_value(bytes@[2 * k], bytes@[2 * k + 1]))
                    is Some,
            forall|k: int|
                0 <= k < iid@.len() ==> iid@[k] == hex_pair_value(
                    bytes@[2 * k + 2],
                    bytes@[2 * k + 3],
                ).unwrap() as u8,
        decreases n - i,
    {
        match hex_pair(bytes[i], bytes[i + 1]) {
            Some(value) => iid.push(value),
            None => {
                let ghost k = (i / 2) as int;
                assert(2 * k == i);
                assert(1 <= k < bytes@.len() / 2);
                assert(hex_pair_value(bytes@[2 * k], bytes@[2 * k + 1]) is None);
                assert(!is_iid_text(bytes@));
                return Err(
                    Error::Other(String::from_str("invalid instance id: not a hexadecimal digit")),
                );
            },
        }
        i += 2;
    }
    assert(iid@ =~= iid_of(bytes@));
    Ok(iid)
}

} // verus!
