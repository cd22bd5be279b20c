use vstd::prelude::*;
use vstd::slice::slice_subrange;

use crate::config::{c_bytes, has_interior_nul};
use crate::PUBLIC_KEY_SIZE;
use crate::PRIVATE_KEY_SIZE;

verus! {

/// A public key.
pub type PublicKey = [u8; PUBLIC_KEY_SIZE];

/// A private key.
pub type PrivateKey = [u8; PRIVATE_KEY_SIZE];

/// The key that libspeer hands out, copied: none when it hands out none.
pub fn copy_key(bytes: Option<&[u8]>) -> (key: Option<PublicKey>)
    requires
        bytes matches Some(b) ==> b@.len() == PUBLIC_KEY_SIZE,
    ensures
        bytes is None <==> key is None,
        key matches Some(k) ==> (bytes matches Some(b) && k@ == b@),
{
    match bytes {
        None => None,
        Some(b) => {
            let mut key: PublicKey = [0u8; 32];
            let mut i: usize = 0;
            while i < PUBLIC_KEY_SIZE
                invariant
                    b@.len() == PUBLIC_KEY_SIZE,
                    key@.len() == PUBLIC_KEY_SIZE,
                    i <= PUBLIC_KEY_SIZE,
                    forall|j: int| 0 <= j < i ==> key@[j] == b@[j],
                decreases PUBLIC_KEY_SIZE - i,
            {
                key[i] = b[i];
                i = i + 1;
            }
            assert(key@ =~= b@);
            Some(key)
        },
    }
}

/// The lower-case hexadecimal digit of a value below sixteen.
pub open spec fn hex_digit(n: int) -> char {
    if n == 0 {
        '0'
    } else if n == 1 {
        '1'
    } else if n == 2 {
        '2'
    } else if n == 3 {
        '3'
    } else if n == 4 {
        '4'
    } else if n == 5 {
        '5'
    } else if n == 6 {
        '6'
    } else if n == 7 {
        '7'
    } else if n == 8 {
        '8'
    } else if n == 9 {
        '9'
    } else if n == 10 {
        'a'
    } else if n == 11 {
        'b'
    } else if n == 12 {
        'c'
    } else if n == 13 {
        'd'
    } else if n == 14 {
        'e'
    } else {
        'f'
    }
}

/// The value of a lower-case hexadecimal digit.
pub open spec fn hex_value(c: char) -> int {
    if c == '0' {
        0
    } else if c == '1' {
        1
    } else if c == '2' {
        2
    } else if c == '3' {
        3
    } else if c == '4' {
        4
    } else if c == '5' {
        5
    } else if c == '6' {
        6
    } else if c == '7' {
        7
    } else if c == '8' {
        8
    } else if c == '9' {
        9
    } else if c == 'a' {
        10
    } else if c == 'b' {
        11
    } else if c == 'c' {
        12
    } else if c == 'd' {
        13
    } else if c == 'e' {
        14
    } else {
        15
    }
}

/// Whether a character is a lower-case hexadecimal digit.
pub open spec fn is_hex_digit(c: char) -> bool {
    ('0' <= c <= '9') || ('a' <= c <= 'f')
}

/// Character `j` of the hexadecimal text of some bytes: each byte gives
/// two digits, the high half first.
pub open spec fn hex_char_at(bytes: Seq<u8>, j: int) -> char {
    if j % 2 == 0 {
        hex_digit((bytes[j / 2] / 16) as int)
    } else {
        hex_digit((bytes[j / 2] % 16) as int)
    }
}

/// The hexadecimal text of the first `n` bytes.
pub open spec fn hex_prefix(bytes: Seq<u8>, n: int) -> Seq<char> {
    Seq::new((2 * n) as nat, |j: int| hex_char_at(bytes, j))
}

/// The lower-case hexadecimal text of some bytes, two digits a byte.
pub open spec fn hex_text(bytes: Seq<u8>) -> Seq<char> {
    hex_prefix(bytes, bytes.len() as int)
}

fn hex_char(n: u8) -> (c: char)
    requires
        n < 16,
    ensures
        c == hex_digit(n as int),
{
    match n {
        0 => '0',
        1 => '1',
        2 => '2',
        3 => '3',
        4 => '4',
        5 => '5',
        6 => '6',
        7 => '7',
        8 => '8',
        9 => '9',
        10 => 'a',
        11 => 'b',
        12 => 'c',
        13 => 'd',
        14 => 'e',
        _ => 'f',
    }
}

/// The lower-case hexadecimal text of a public key.
pub fn public_key_to_hex(public_key: &PublicKey) -> (s: String)
    ensures
        s@ == hex_text(public_key@),
        s@.len() == 2 * PUBLIC_KEY_SIZE,
        forall|i: int|
            0 <= i < PUBLIC_KEY_SIZE ==> {
                let hi = public_key@[i] / 16;
                let lo = public_key@[i] % 16;
                &&& #[trigger] s@[2 * i] as int == (if hi < 10 { 48 + hi } else { 87 + hi })
                &&& s@[2 * i + 1] as int == (if lo < 10 { 48 + lo } else { 87 + lo })
            },
{
    let mut out = String::new();
    let mut i: usize = 0;
    while i < PUBLIC_KEY_SIZE
        invariant
            public_key@.len() == PUBLIC_KEY_SIZE,
            i <= PUBLIC_KEY_SIZE,
            out@ =~= hex_prefix(public_key@, i as int),
        decreases PUBLIC_KEY_SIZE - i,
    {
        let byte = public_key[i];
        out.push(hex_char(byte / 16));
        out.push(hex_char(byte % 16));
        proof {
            assert(public_key@[i as int] == byte);
            assert((2 * i as int) / 2 == i as int);
            assert((2 * i as int + 1) / 2 == i as int);
            assert((2 * i as int) % 2 == 0);
            assert((2 * i as int + 1) % 2 == 1);
        }
        assert(out@ =~= hex_prefix(public_key@, i as int + 1));
        i = i + 1;
    }
    proof {
        assert forall|i: int| 0 <= i < PUBLIC_KEY_SIZE implies {
            let hi = public_key@[i] / 16;
            let lo = public_key@[i] % 16;
            &&& #[trigger] out@[2 * i] as int == (if hi < 10 { 48 + hi } else { 87 + hi })
            &&& out@[2 * i + 1] as int == (if lo < 10 { 48 + lo } else { 87 + lo })
        } by {
            lemma_hex_text_chars(public_key@, i);
        }
    }
    out
}

/// Each byte becomes two ASCII characters, the digit of its high half then
/// that of its low half: `0`-`9` for values below ten, `a`-`f` above.
pub proof fn lemma_hex_text_chars(bytes: Seq<u8>, i: int)
    requires
        0 <= i < bytes.len(),
    ensures
        hex_text(bytes).len() == 2 * bytes.len(),
        ({
            let hi = bytes[i] / 16;
            let lo = bytes[i] % 16;
            &&& hex_text(bytes)[2 * i] as int == (if hi < 10 { 48 + hi } else { 87 + hi })
            &&& hex_text(bytes)[2 * i + 1] as int == (if lo < 10 { 48 + lo } else { 87 + lo })
        }),
{
    assert((2 * i) / 2 == i);
    assert((2 * i + 1) / 2 == i);
    assert((2 * i) % 2 == 0);
    assert((2 * i + 1) % 2 == 1);
}

/// Two hexadecimal digits of a byte give the byte back.
proof fn lemma_hex_digits_of_byte(b: u8)
    ensures
        hex_value(hex_digit((b / 16) as int)) * 16 + hex_value(hex_digit((b % 16) as int)) == b as int,
        is_hex_digit(hex_digit((b / 16) as int)),
        is_hex_digit(hex_digit((b % 16) as int)),
{
}

/// Two digits of the hexadecimal text give back the byte they come from.
proof fn lemma_hex_text_decodes_at(bytes: Seq<u8>, i: int)
    requires
        0 <= i < bytes.len(),
    ensures
        hex_value(hex_text(bytes)[2 * i]) * 16 + hex_value(hex_text(bytes)[2 * i + 1]) == bytes[i] as int,
{
    assert((2 * i) / 2 == i);
    assert((2 * i + 1) / 2 == i);
    assert((2 * i) % 2 == 0);
    assert((2 * i + 1) % 2 == 1);
    lemma_hex_digits_of_byte(bytes[i]);
}

/// The hexadecimal text of some bytes is twice as long, holds only
/// lower-case hexadecimal digits, and reads back as the same bytes.
pub proof fn lemma_hex_text_decodes(bytes: Seq<u8>)
    ensures
        hex_text(bytes).len() == 2 * bytes.len(),
        forall|j: int| 0 <= j < hex_text(bytes).len() ==> is_hex_digit(#[trigger] hex_text(bytes)[j]),
        forall|i: int|
            0 <= i < bytes.len() ==> hex_value(#[trigger] hex_text(bytes)[2 * i]) * 16 + hex_value(
                hex_text(bytes)[2 * i + 1],
            ) == bytes[i] as int,
{
    assert forall|j: int| 0 <= j < hex_text(bytes).len() implies is_hex_digit(
        #[trigger] hex_text(bytes)[j],
    ) by {
        lemma_hex_digits_of_byte(bytes[j / 2]);
    }
    assert forall|i: int| 0 <= i < bytes.len() implies hex_value(
        #[trigger] hex_text(bytes)[2 * i],
    ) * 16 + hex_value(hex_text(bytes)[2 * i + 1]) == bytes[i] as int by {
        lemma_hex_text_decodes_at(bytes, i);
    }
}

/// Two keys with the same hexadecimal text are the same key.
pub proof fn lemma_hex_text_injective(a: Seq<u8>, b: Seq<u8>)
    requires
        hex_text(a) == hex_text(b),
    ensures
        a == b,
{
    assert(a.len() == b.len()) by {
        assert(hex_text(a).len() == 2 * a.len());
        assert(hex_text(b).len() == 2 * b.len());
    }
    assert forall|i: int| 0 <= i < a.len() implies a[i] == b[i] by {
        lemma_hex_text_decodes_at(a, i);
        lemma_hex_text_decodes_at(b, i);
    }
    assert(a =~= b);
}

/// Whether `c` is the C string at the start of `bytes`: the bytes up to and
/// including the first NUL.
pub open spec fn is_leading_c_string(c: Seq<u8>, bytes: Seq<u8>) -> bool {
    &&& 1 <= c.len() <= bytes.len()
    &&& c == bytes.take(c.len() as int)
    &&& c.last() == 0u8
    &&& forall|j: int| 0 <= j < c.len() - 1 ==> c[j] != 0u8
}

/// The C string at the start of some bytes, NUL included; none when the
/// bytes hold no NUL.
pub fn cstr_from_public_key_bytes(bytes: &[u8]) -> (r: Option<&[u8]>)
    ensures
        r is None <==> !bytes@.contains(0u8),
        r matches Some(c) ==> is_leading_c_string(c@, bytes@),
        r matches Some(c) ==> {
            &&& 1 <= c@.len() <= bytes@.len()
            &&& c@ == bytes@.take(c@.len() as int)
            &&& c@.last() == 0u8
            &&& forall|j: int| 0 <= j < c@.len() - 1 ==> c@[j] != 0u8
        },
{
    let n = bytes.len();
    let mut i: usize = 0;
    while i < n
        invariant
            n == bytes@.len(),
            i <= n,
            forall|j: int| 0 <= j < i ==> bytes@[j] != 0u8,
        decreases n - i,
    {
        if bytes[i] == 0u8 {
            let c = slice_subrange(bytes, 0, i + 1);
            assert(c@ =~= bytes@.take(i + 1));
            assert(bytes@.contains(0u8)) by {
                assert(bytes@[i as int] == 0u8);
            }
            return Some(c);
        }
        i = i + 1;
    }
    None
}

/// A C string made from a text reads back whole: its first NUL is its last
/// byte, so the C string found at its start is all of it.
pub proof fn lemma_c_string_reads_back(text: Seq<char>)
    requires
        !has_interior_nul(text),
    ensures
        is_leading_c_string(c_bytes(text), c_bytes(text)),
{
    let c = c_bytes(text);
    assert(c.take(c.len() as int) =~= c);
    assert forall|j: int| 0 <= j < c.len() - 1 implies c[j] != 0u8 by {
        assert(c[j] == crate::config::text_bytes(text)[j]);
    }
}

} // verus!
