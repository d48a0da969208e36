//! Identifiers of peers: the SHA-256 digest of a peer's public key, printed
//! and parsed as 64 hexadecimal digits.
use vstd::prelude::*;
use vstd::string::StringSliceAdditionalSpecFns;

verus! {

broadcast use vstd::string::group_string_axioms;

/// The number of bytes of an identifier.
pub const IDENTIFIER_LENGTH: usize = 32;

/// A 32-byte peer identifier.
#[derive(Copy, Clone, Debug, Hash)]
pub struct Identifier([u8; 32]);

impl View for Identifier {
    type V = Seq<u8>;

    closed spec fn view(&self) -> Seq<u8> {
        self.0@
    }
}

/// Why a string is not the hexadecimal form of an identifier.
#[derive(Clone, Copy, Debug, PartialEq, Eq, Structural)]
pub enum HexError {
    /// The string does not hold exactly 64 bytes; the field is its length.
    InvalidLength(usize),
    /// The pair of bytes for the identifier byte at this index is no hexadecimal number.
    InvalidValue(usize),
}

/// The value of one hexadecimal digit (either case), if `b` is one.
pub open spec fn hex_digit_value(b: u8) -> Option<u8> {
    if 48 <= b <= 57 {
        Some((b - 48) as u8)
    } else if 65 <= b <= 70 {
        Some((b - 55) as u8)
    } else if 97 <= b <= 102 {
        Some((b - 87) as u8)
    } else {
        None
    }
}

/// The value of a two-byte string read as a base-16 `u8`: either two digits,
/// or a `+` sign followed by one digit.
pub open spec fn hex_pair_value(hi: u8, lo: u8) -> Option<u8> {
    if hi == 43 {
        hex_digit_value(lo)
    } else {
        match (hex_digit_value(hi), hex_digit_value(lo)) {
            (Some(h), Some(l)) => Some((h * 16 + l) as u8),
            _ => None,
        }
    }
}

/// The value of the `i`-th byte pair of `s`.
pub open spec fn pair_at(s: Seq<u8>, i: int) -> Option<u8> {
    hex_pair_value(s[2 * i], s[2 * i + 1])
}

/// Whether every one of the first `n` byte pairs of `s` has a value.
pub open spec fn pairs_valid_upto(s: Seq<u8>, n: int) -> bool {
    forall|i: int| 0 <= i < n ==> (#[trigger] pair_at(s, i)) is Some
}

/// The identifier that the 64-byte hexadecimal string `s` denotes, or why it denotes none.
pub open spec fn parse_hex_spec(s: Seq<u8>) -> Result<Seq<u8>, HexError> {
    if s.len() != 64 {
        Err(HexError::InvalidLength(s.len() as usize))
    } else if pairs_valid_upto(s, 32) {
        Ok(Seq::new(32, |i: int| pair_at(s, i)->0))
    } else {
        let i = choose|i: int| 0 <= i < 32 && pair_at(s, i) is None && pairs_valid_upto(s, i);
        Err(HexError::InvalidValue(i as usize))
    }
}

/// The upper-case hexadecimal digit for `d < 16`.
pub open spec fn hex_char(d: int) -> char {
    if d < 10 {
        (48 + d) as char
    } else {
        (55 + d) as char
    }
}

/// The upper-case hexadecimal form of `bytes`: two digits per byte, high digit first.
pub open spec fn hex_string(bytes: Seq<u8>) -> Seq<char>
    decreases bytes.len(),
{
    if bytes.len() == 0 {
        Seq::empty()
    } else {
        hex_string(bytes.drop_last()) + seq![
            hex_char(bytes.last() as int / 16),
            hex_char(bytes.last() as int % 16),
        ]
    }
}

fn hex_digit(b: u8) -> (r: Option<u8>)
    ensures
        r == hex_digit_value(b),
{
    if 48 <= b && b <= 57 {
        Some(b - 48)
    } else if 65 <= b && b <= 70 {
        Some(b - 55)
    } else if 97 <= b && b <= 102 {
        Some(b - 87)
    } else {
        None
    }
}

fn parse_hex_pair(hi: u8, lo: u8) -> (r: Option<u8>)
    ensures
        r == hex_pair_value(hi, lo),
{
    if hi == 43 {
        return hex_digit(lo);
    }
    match (hex_digit(hi), hex_digit(lo)) {
        (Some(h), Some(l)) => Some(h * 16 + l),
        _ => None,
    }
}

/// `String::push`: appends one character.
#[verifier::external_body]
fn string_push(s: &mut String, c: char)
    ensures
        final(s)@ == old(s)@.push(c),
{
    s.push(c)
}

fn hex_char_exec(d: u8) -> (c: char)
    requires
        d < 16,
    ensures
        c == hex_char(d as int),
{
    if d < 10 {
        (48 + d) as char
    } else {
        (55 + d) as char
    }
}

impl Identifier {
    /// The identifier made of the first 32 bytes of `slice`; an error where it is shorter.
    pub fn copy_from_slice(slice: &[u8]) -> (r: Result<Identifier, String>)
        ensures
            slice@.len() < 32 <==> r is Err,
            r matches Ok(id) ==> id@ == slice@.take(32),
            r matches Err(e) ==> e@ == "Slice length insufficient"@,
    {
        if slice.len() < IDENTIFIER_LENGTH {
            return Err("Slice length insufficient".to_string());
        }
        let mut identifier = [0u8; 32];
        for i in 0..32
            invariant
                slice@.len() >= 32,
                forall|j: int| 0 <= j < i ==> identifier@[j] == slice@[j],
        {
            identifier[i] = slice[i];
        }
        assert(identifier@ =~= slice@.take(32));
        Ok(Identifier(identifier))
    }

    /// The number of bytes of an identifier: always 32.
    pub fn len(&self) -> (n: usize)
        ensures
            n == 32,
            n == self@.len(),
    {
        self.0.len()
    }

    /// Whether this is the all-zero identifier (the default one).
    pub fn is_empty(&self) -> (r: bool)
        ensures
            r == (self@ == Seq::new(32, |i: int| 0u8)),
    {
        let mut i: usize = 0;
        while i < 32
            invariant
                i <= 32,
                forall|j: int| 0 <= j < i ==> self@[j] == 0,
            decreases 32 - i,
        {
            if self.0[i] != 0 {
                return false;
            }
            i = i + 1;
        }
        assert(self@ =~= Seq::new(32, |i: int| 0u8));
        true
    }

    /// The identifier's bytes.
    pub fn as_bytes(&self) -> (r: &[u8])
        ensures
            r@ == self@,
    {
        self.0.as_slice()
    }

    /// Reads an identifier from its hexadecimal form: 64 bytes, two per identifier byte.
    pub fn parse_hex(s: &str) -> (r: Result<Identifier, HexError>)
        ensures
            r matches Ok(id) ==> parse_hex_spec(s.spec_bytes()) == Ok::<Seq<u8>, HexError>(id@),
            r matches Err(e) ==> parse_hex_spec(s.spec_bytes()) == Err::<Seq<u8>, HexError>(e),
    {
        let bytes = s.as_bytes();
        if bytes.len() != 64 {
            return Err(HexError::InvalidLength(bytes.len()));
        }
        let mut ident = [0u8; 32];
        for i in 0..32
            invariant
                bytes@ == s.spec_bytes(),
                bytes@.len() == 64,
                pairs_valid_upto(bytes@, i as int),
                forall|j: int| 0 <= j < i ==> ident@[j] == pair_at(bytes@, j)->0,
        {
            match parse_hex_pair(bytes[2 * i], bytes[2 * i + 1]) {
                Some(v) => {
                    ident[i] = v;
                },
                None => {
                    proof {
                        assert(pair_at(bytes@, i as int) is None);
                        assert(!pairs_valid_upto(bytes@, 32));
                        let k = choose|k: int|
                            0 <= k < 32 && pair_at(bytes@, k) is None && pairs_valid_upto(
                                bytes@,
                                k,
                            );
                        if k < i {
                            assert(pair_at(bytes@, k) is Some);
                        }
                        if k > i {
                            assert(pair_at(bytes@, i as int) is Some);
                        }
                    }
                    return Err(HexError::InvalidValue(i));
                },
            }
        }
        assert(ident@ =~= Seq::new(32, |j: int| pair_at(bytes@, j)->0));
        Ok(Identifier(ident))
    }

    /// Reads an identifier from its hexadecimal form, with the messages of `FromStr`.
    pub fn from_hex_str(s: &str) -> (r: Result<Identifier, String>)
        ensures
            r matches Ok(id) ==> parse_hex_spec(s.spec_bytes()) == Ok::<Seq<u8>, HexError>(id@),
            r matches Err(e) ==> (parse_hex_spec(s.spec_bytes()) is Err && (if s.spec_bytes().len()
                != 64 {
                e@ == "String length insufficient"@
            } else {
                e@ == "Invalid characters in string"@
            })),
            parse_hex_spec(s.spec_bytes()) is Ok ==> r is Ok,
    {
        match Identifier::parse_hex(s) {
            Ok(id) => Ok(id),
            Err(HexError::InvalidLength(_)) => Err("String length insufficient".to_string()),
            Err(HexError::InvalidValue(_)) => Err("Invalid characters in string".to_string()),
        }
    }

    /// The upper-case hexadecimal form of the identifier, as `Display` prints it.
    pub fn to_hex_string(&self) -> (s: String)
        ensures
            s@ == hex_string(self@),
    {
        let mut s = String::new();
        for i in 0..32
            invariant
                self@.len() == 32,
                s@ == hex_string(self@.take(i as int)),
        {
            let b = self.0[i];
            string_push(&mut s, hex_char_exec(b / 16));
            string_push(&mut s, hex_char_exec(b % 16));
            proof {
                assert(self@.take(i + 1).drop_last() =~= self@.take(i as int));
            }
        }
        assert(self@.take(32) =~= self@);
        s
    }
}

proof fn lemma_view_len(id: Identifier)
    ensures
        id@.len() == 32,
{
}

proof fn lemma_hex_string_shape(b: Seq<u8>)
    ensures
        hex_string(b).len() == 2 * b.len(),
        forall|i: int|
            #![trigger b[i]]
            0 <= i < b.len() ==> hex_string(b)[2 * i] == hex_char(b[i] as int / 16) && hex_string(
                b,
            )[2 * i + 1] == hex_char(b[i] as int % 16),
    decreases b.len(),
{
    if b.len() > 0 {
        lemma_hex_string_shape(b.drop_last());
        assert forall|i: int| 0 <= i < b.len() implies hex_string(b)[2 * i] == hex_char(
            b[i] as int / 16,
        ) && hex_string(b)[2 * i + 1] == hex_char(b[i] as int % 16) by {
            if i < b.len() - 1 {
                assert(b.drop_last()[i] == b[i]);
            }
        }
    }
}

proof fn lemma_hex_char_digit(d: int)
    requires
        0 <= d < 16,
    ensures
        ('\0' <= hex_char(d) <= '\u{7f}'),
        hex_digit_value(hex_char(d) as u8) == Some(d as u8),
{
}

/// The hexadecimal form of `b` is ASCII: its UTF-8 bytes are its characters, two per
/// byte of `b`.
pub proof fn lemma_hex_string_ascii(b: Seq<u8>)
    ensures
        vstd::utf8::is_ascii_chars(hex_string(b)),
        vstd::utf8::encode_utf8(hex_string(b)) == Seq::new(
            hex_string(b).len(),
            |i: int| hex_string(b)[i] as u8,
        ),
        vstd::utf8::encode_utf8(hex_string(b)).len() == 2 * b.len(),
{
    let s = hex_string(b);
    lemma_hex_string_shape(b);
    assert forall|j: int| 0 <= j < s.len() implies '\0' <= #[trigger] s[j] <= '\u{7f}' by {
        let i = j / 2;
        assert(0 <= i < b.len());
        lemma_hex_char_digit(b[i] as int / 16);
        lemma_hex_char_digit(b[i] as int % 16);
        if j % 2 == 0 {
            assert(j == 2 * i);
        } else {
            assert(j == 2 * i + 1);
        }
    }
    assert(vstd::utf8::is_ascii_chars(s));
    vstd::utf8::is_ascii_chars_encode_utf8(s);
}

/// Printing an identifier in hexadecimal (as `to_hex_string` does) and reading the
/// UTF-8 bytes of that text back (as `parse_hex` does) gives the identifier again.
pub proof fn lemma_hex_round_trip(id: Identifier)
    ensures
        parse_hex_spec(vstd::utf8::encode_utf8(hex_string(id@))) == Ok::<Seq<u8>, HexError>(id@),
{
    let b = id@;
    let s = hex_string(b);
    lemma_view_len(id);
    lemma_hex_string_shape(b);
    lemma_hex_string_ascii(b);
    let bytes = vstd::utf8::encode_utf8(s);
    assert forall|i: int| 0 <= i < 32 implies #[trigger] pair_at(bytes, i) == Some(b[i]) by {
        let h = b[i] as int / 16;
        let l = b[i] as int % 16;
        lemma_hex_char_digit(h);
        lemma_hex_char_digit(l);
        assert(bytes[2 * i] == s[2 * i] as u8);
        assert(bytes[2 * i + 1] == s[2 * i + 1] as u8);
        assert(h * 16 + l == b[i]);
    }
    assert(pairs_valid_upto(bytes, 32));
    assert(Seq::new(32, |i: int| pair_at(bytes, i)->0) =~= b);
}

/// The ASCII code of the upper-case hexadecimal digit `d` (`0`-`9`, `A`-`F`).
pub open spec fn upper_hex_digit(d: int) -> u8 {
    if d < 10 {
        (0x30 + d) as u8
    } else {
        (0x41 + d - 10) as u8
    }
}

/// The ASCII code of the lower-case hexadecimal digit `d` (`0`-`9`, `a`-`f`).
pub open spec fn lower_hex_digit(d: int) -> u8 {
    if d < 10 {
        (0x30 + d) as u8
    } else {
        (0x61 + d - 10) as u8
    }
}

/// Whether the byte `c` is the hexadecimal digit `d`, in either case.
pub open spec fn is_hex_digit_for(c: u8, d: int) -> bool {
    c == upper_hex_digit(d) || c == lower_hex_digit(d)
}

/// Reading any 64-byte text that writes each byte of `b` as two hexadecimal digits, high
/// digit first, each digit in either case, gives `b`: upper-case text as printed, lower-case
/// text as `sha256sum` prints it, and any mix.
pub proof fn lemma_parse_hex_either_case(b: Seq<u8>, t: Seq<u8>)
    requires
        b.len() == 32,
        t.len() == 64,
        forall|i: int|
            0 <= i < 32 ==> is_hex_digit_for(#[trigger] t[2 * i], b[i] as int / 16)
                && is_hex_digit_for(t[2 * i + 1], b[i] as int % 16),
    ensures
        parse_hex_spec(t) == Ok::<Seq<u8>, HexError>(b),
{
    assert forall|i: int| 0 <= i < 32 implies #[trigger] pair_at(t, i) == Some(b[i]) by {
        assert(is_hex_digit_for(t[2 * i], b[i] as int / 16));
        assert(hex_digit_value(t[2 * i]) == Some((b[i] as int / 16) as u8));
        assert(hex_digit_value(t[2 * i + 1]) == Some((b[i] as int % 16) as u8));
    }
    assert(pairs_valid_upto(t, 32));
    assert(Seq::new(32, |i: int| pair_at(t, i)->0) =~= b);
}

/// A text that is not 64 bytes long is refused for its length, and a text with a byte
/// that is neither a hexadecimal digit nor a `+` sign (which `u8::from_str_radix` takes
/// before a single digit) is refused.
pub proof fn lemma_parse_hex_rejects(t: Seq<u8>, j: int)
    requires
        0 <= j < t.len(),
        forall|d: int| 0 <= d < 16 ==> !#[trigger] is_hex_digit_for(t[j], d),
        t[j] != 0x2b,
    ensures
        t.len() != 64 ==> parse_hex_spec(t) == Err::<Seq<u8>, HexError>(
            HexError::InvalidLength(t.len() as usize),
        ),
        parse_hex_spec(t) is Err,
{
    if t.len() == 64 {
        let i = j / 2;
        if let Some(v) = hex_digit_value(t[j]) {
            assert(is_hex_digit_for(t[j], v as int));
        }
        assert(hex_digit_value(t[j]) is None);
        if j % 2 == 0 {
            assert(j == 2 * i);
        } else {
            assert(j == 2 * i + 1);
        }
        assert(pair_at(t, i) is None);
        assert(!pairs_valid_upto(t, 32));
    }
}

impl PartialEq for Identifier {
    fn eq(&self, other: &Identifier) -> (r: bool) {
        let mut i: usize = 0;
        while i < 32
            invariant
                i <= 32,
                self@.len() == 32,
                other@.len() == 32,
                forall|j: int| 0 <= j < i ==> self@[j] == other@[j],
            decreases 32 - i,
        {
            if self.0[i] != other.0[i] {
                return false;
            }
            i = i + 1;
        }
        assert(self@ =~= other@);
        true
    }
}

impl Eq for Identifier {
}

impl vstd::std_specs::cmp::PartialEqSpecImpl for Identifier {
    open spec fn obeys_eq_spec() -> bool {
        true
    }

    open spec fn eq_spec(&self, other: &Identifier) -> bool {
        self@ == other@
    }
}

impl Default for Identifier {
    /// The all-zero identifier.
    fn default() -> (r: Identifier)
        ensures
            r@ == Seq::new(32, |i: int| 0u8),
    {
        let r = Identifier([0u8; 32]);
        assert(r@ =~= Seq::new(32, |i: int| 0u8));
        r
    }
}

/// Two identifiers with the same bytes are the same identifier, and every identifier
/// holds 32 bytes.
pub broadcast proof fn lemma_identifier_view(a: Identifier, b: Identifier)
    ensures
        #![trigger a@, b@]
        a@.len() == 32,
        a@ == b@ ==> a == b,
{
    if a@ == b@ {
        assert(a.0 =~= b.0);
    }
}

/// Copying an identifier out of its own bytes gives the identifier back.
pub proof fn lemma_copy_of_bytes(id: Identifier, bytes: Seq<u8>)
    requires
        bytes == id@,
    ensures
        bytes.len() >= 32,
        forall|other: Identifier| other@ == bytes.take(32) ==> other == id,
{
    lemma_view_len(id);
    assert(bytes.take(32) =~= bytes);
    assert forall|other: Identifier| other@ == bytes.take(32) implies other == id by {
        lemma_identifier_view(other, id);
    }
}

/// A copy of a list of identifiers.
pub fn copy_identifiers(v: &Vec<Identifier>) -> (r: Vec<Identifier>)
    ensures
        r@ == v@,
{
    let mut r = Vec::new();
    for i in 0..v.len()
        invariant
            r@ == v@.take(i as int),
    {
        r.push(v[i]);
        assert(r@ =~= v@.take(i + 1));
    }
    assert(v@.take(v@.len() as int) =~= v@);
    r
}

impl core::str::FromStr for Identifier {
    type Err = String;

    fn from_str(s: &str) -> (r: Result<Identifier, String>)
        ensures
            r matches Ok(id) ==> parse_hex_spec(s.spec_bytes()) == Ok::<Seq<u8>, HexError>(id@),
            r matches Err(e) ==> (parse_hex_spec(s.spec_bytes()) is Err && (if s.spec_bytes().len()
                != 64 {
                e@ == "String length insufficient"@
            } else {
                e@ == "Invalid characters in string"@
            })),
            parse_hex_spec(s.spec_bytes()) is Ok ==> r is Ok,
    {
        Identifier::from_hex_str(s)
    }
}

} // verus!
