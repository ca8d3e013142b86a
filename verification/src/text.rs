//! Text handling for the diagnostic identity fields: a 64-byte control
//! response is shown as its NUL-terminated text when that text is valid
//! UTF-8, and as a hexadecimal byte dump otherwise. These fields have no
//! guaranteed encoding, so both representations are needed.

use vstd::prelude::*;
use vstd::slice::{slice_index_get, slice_subrange, slice_to_vec};
use vstd::string::StringExecFns;
use vstd::utf8::{decode_utf8, valid_utf8};
use crate::control::RESPONSE_LEN;
use crate::{error_description, Error};

verus! {

/// The index of the first NUL byte of `b`, or its length when none occurs.
pub open spec fn first_nul(b: Seq<u8>) -> int
    decreases b.len(),
{
    if b.len() == 0 {
        0
    } else if b[0] == 0 {
        0
    } else {
        1 + first_nul(b.drop_first())
    }
}

/// The prefix of `b` before its first NUL byte.
pub open spec fn nul_truncate(b: Seq<u8>) -> Seq<u8> {
    b.take(first_nul(b))
}

proof fn lemma_first_nul_bounds(b: Seq<u8>)
    ensures
        0 <= first_nul(b) <= b.len(),
        forall|j: int| 0 <= j < first_nul(b) ==> b[j] != 0,
        first_nul(b) < b.len() ==> b[first_nul(b)] == 0,
    decreases b.len(),
{
    if b.len() > 0 && b[0] != 0 {
        lemma_first_nul_bounds(b.drop_first());
        assert forall|j: int| 0 <= j < first_nul(b) implies b[j] != 0 by {
            if j > 0 {
                assert(b.drop_first()[j - 1] != 0);
            }
        }
    }
}

proof fn lemma_first_nul_is(b: Seq<u8>, i: int)
    requires
        0 <= i <= b.len(),
        forall|j: int| 0 <= j < i ==> b[j] != 0,
        i < b.len() ==> b[i] == 0,
    ensures
        first_nul(b) == i,
    decreases b.len(),
{
    if b.len() > 0 && b[0] != 0 {
        lemma_first_nul_is(b.drop_first(), i - 1);
    }
}

fn find_first_nul(data: &[u8]) -> (i: usize)
    ensures
        i == first_nul(data@),
{
    let len = data.len();
    let mut i: usize = 0;
    while i < len
        invariant
            len == data@.len(),
            i <= len,
            forall|j: int| 0 <= j < i ==> data@[j] != 0,
        decreases len - i,
    {
        if *slice_index_get(data, i) == 0 {
            proof {
                lemma_first_nul_is(data@, i as int);
            }
            return i;
        }
        i = i + 1;
    }
    proof {
        lemma_first_nul_is(data@, i as int);
    }
    i
}

/// The bytes of `data` before its first NUL byte, as an owned vector.
pub fn nul_truncated(data: &[u8]) -> (r: Vec<u8>)
    ensures
        r@ == nul_truncate(data@),
{
    let i = find_first_nul(data);
    proof {
        lemma_first_nul_bounds(data@);
    }
    slice_to_vec(slice_subrange(data, 0, i))
}

/// The hexadecimal digit for a value below 16.
pub open spec fn hex_digit(n: u8) -> char
    recommends
        n < 16,
{
    if n == 0 {
        '0'
    } else if n == 1 {
        '1'
    } else if n == 2 {
        '2'
    } else if n == 3 {
        '3'
    } else if n == 4 {
        '4'
    } else if n == 5 {
        '5'
    } else if n == 6 {
        '6'
    } else if n == 7 {
        '7'
    } else if n == 8 {
        '8'
    } else if n == 9 {
        '9'
    } else if n == 10 {
        'A'
    } else if n == 11 {
        'B'
    } else if n == 12 {
        'C'
    } else if n == 13 {
        'D'
    } else if n == 14 {
        'E'
    } else {
        'F'
    }
}

/// The two hexadecimal digits of one byte.
pub open spec fn hex_byte_chars(x: u8) -> Seq<char> {
    seq![hex_digit(x / 16), hex_digit(x % 16)]
}

/// A byte sequence dumped as uppercase hexadecimal pairs joined by
/// a comma and a space.
pub open spec fn hex_dump(b: Seq<u8>) -> Seq<char>
    decreases b.len(),
{
    if b.len() == 0 {
        Seq::empty()
    } else if b.len() == 1 {
        hex_byte_chars(b[0])
    } else {
        hex_dump(b.drop_last()) + ", "@ + hex_byte_chars(b.last())
    }
}

fn hex_nibble_str(n: u8) -> (r: &'static str)
    requires
        n < 16,
    ensures
        r@ == seq![hex_digit(n)],
{
    proof {
        reveal_strlit("0");
        reveal_strlit("1");
        reveal_strlit("2");
        reveal_strlit("3");
        reveal_strlit("4");
        reveal_strlit("5");
        reveal_strlit("6");
        reveal_strlit("7");
        reveal_strlit("8");
        reveal_strlit("9");
        reveal_strlit("A");
        reveal_strlit("B");
        reveal_strlit("C");
        reveal_strlit("D");
        reveal_strlit("E");
        reveal_strlit("F");
    }
    let r: &'static str = match n {
        0 => "0",
        1 => "1",
        2 => "2",
        3 => "3",
        4 => "4",
        5 => "5",
        6 => "6",
        7 => "7",
        8 => "8",
        9 => "9",
        10 => "A",
        11 => "B",
        12 => "C",
        13 => "D",
        14 => "E",
        _ => "F",
    };
    proof {
        assert(r@ =~= seq![hex_digit(n)]);
    }
    r
}

/// Dump bytes as uppercase hexadecimal pairs joined by a comma and a space.
pub fn hex_dump_string(data: &[u8]) -> (r: String)
    ensures
        r@ == hex_dump(data@),
{
    let len = data.len();
    let mut s = String::new();
    let mut i: usize = 0;
    while i < len
        invariant
            len == data@.len(),
            i <= len,
            s@ == hex_dump(data@.take(i as int)),
        decreases len - i,
    {
        if i > 0 {
            s.append(", ");
        }
        let b = *slice_index_get(data, i);
        s.append(hex_nibble_str(b / 16));
        s.append(hex_nibble_str(b % 16));
        proof {
            let prefix = data@.take(i as int + 1);
            assert(prefix.drop_last() =~= data@.take(i as int));
            assert(s@ =~= hex_dump(prefix));
        }
        i = i + 1;
    }
    proof {
        assert(data@.take(len as int) =~= data@);
    }
    s
}

/// Relies on core::str::from_utf8: it returns text exactly when the bytes
/// are valid UTF-8, and that text decodes those bytes.
#[verifier::external_body]
fn utf8_from_bytes<'a>(bytes: &'a [u8]) -> (r: Option<&'a str>)
    ensures
        r is Some <==> valid_utf8(bytes@),
        r matches Some(s) ==> s@ == decode_utf8(bytes@),
{
    core::str::from_utf8(bytes).ok()
}

/// The placeholder text shown for a field whose read failed.
pub open spec fn unknown_text(e: Error) -> Seq<char> {
    "Unknown ("@ + error_description(e) + ")"@
}

fn unknown_string(e: Error) -> (r: String)
    ensures
        r@ == unknown_text(e),
{
    let mut s = String::from_str("Unknown (");
    s.append(e.description());
    s.append(")");
    s
}

/// What an identity response presents as: its NUL-terminated text when that
/// is valid UTF-8, else a hexadecimal dump of the whole response.
pub open spec fn spec_text_or_hex(b: Seq<u8>) -> Seq<char> {
    if valid_utf8(nul_truncate(b)) {
        decode_utf8(nul_truncate(b))
    } else {
        hex_dump(b)
    }
}

/// Present an identity read result: the NUL-terminated text when it is
/// valid UTF-8, a hexadecimal dump of the response when it is not, and a
/// descriptive placeholder when the read itself failed.
pub fn convert_byte_array(byte_array: Result<[u8; RESPONSE_LEN], Error>) -> (r: String)
    ensures
        r@ == match byte_array {
            Ok(b) => spec_text_or_hex(b@),
            Err(e) => unknown_text(e),
        },
{
    match byte_array {
        Ok(arr) => {
            let truncated = nul_truncated(arr.as_slice());
            match utf8_from_bytes(truncated.as_slice()) {
                Some(s) => s.to_owned(),
                None => hex_dump_string(arr.as_slice()),
            }
        },
        Err(e) => unknown_string(e),
    }
}

/// Present a raw data response: always a hexadecimal dump, or the
/// descriptive placeholder when the read failed.
pub fn convert_data_response(byte_array: Result<[u8; RESPONSE_LEN], Error>) -> (r: String)
    ensures
        r@ == match byte_array {
            Ok(b) => hex_dump(b@),
            Err(e) => unknown_text(e),
        },
{
    match byte_array {
        Ok(arr) => hex_dump_string(arr.as_slice()),
        Err(e) => unknown_string(e),
    }
}

} // verus!
