//! Small facts about text: NUL bytes, UTF-8 names and decimal numbers.

use vstd::prelude::*;
use vstd::utf8::*;

use crate::errno::Errno;

verus! {

/// Whether a C string can hold these characters: none of them is NUL.
pub open spec fn nul_free(chars: Seq<char>) -> bool {
    !chars.contains('\0')
}

/// The decimal digits of a natural number.
pub open spec fn decimal_digits(n: nat) -> Seq<char>
    decreases n,
{
    if n < 10 {
        seq![(('0' as int) + n) as char]
    } else {
        decimal_digits(n / 10).push((('0' as int) + n % 10) as char)
    }
}

/// An integer in decimal, with a leading minus sign when it is negative.
pub open spec fn decimal(n: int) -> Seq<char> {
    if n < 0 {
        seq!['-'] + decimal_digits((-n) as nat)
    } else {
        decimal_digits(n as nat)
    }
}

/// What `{:?}` prints for a string: the text in double quotes, with the
/// characters that `str`'s `Debug` escapes written as escapes.
pub uninterp spec fn debug_quoted(chars: Seq<char>) -> Seq<char>;

/// Calls `i32`'s `ToString::to_string`: the number in decimal, as its
/// `Display` prints it without any formatting parameter.
#[verifier::external_body]
pub(crate) fn i32_to_string(n: i32) -> (s: String)
    ensures
        s@ == decimal(n as int),
{
    n.to_string()
}

/// Prints a string with `{:?}`. The result is a function of the characters
/// alone; how `Debug` escapes them is left to its name.
#[verifier::external_body]
pub(crate) fn debug_string(s: &str) -> (r: String)
    ensures
        r@ == debug_quoted(s@),
{
    format!("{:?}", s)
}

/// Calls `std::str::from_utf8`: it succeeds exactly on well-formed UTF-8, and
/// the string then has those bytes.
#[verifier::external_body]
fn str_from_utf8(bytes: &[u8]) -> (r: Option<&str>)
    ensures
        r is Some <==> valid_utf8(bytes@),
        r matches Some(s) ==> encode_utf8(s@) == bytes@,
{
    std::str::from_utf8(bytes).ok()
}

/// Whether a string holds a NUL character, which no C string can carry.
pub fn contains_nul(s: &str) -> (r: bool)
    ensures
        r == !nul_free(s@),
{
    for c in it: s.chars()
        invariant
            it.seq() == s@,
            nul_free(s@.take(it.index())),
    {
        assert(c == s@[it.index()]);
        if c == '\0' {
            return true;
        }
        assert(s@.take(it.index() + 1) == s@.take(it.index()).push(c));
    }
    assert(s@.take(s@.len() as int) == s@);
    false
}

/// Decodes a name that came from the kernel. Names are UTF-8 only: any other
/// byte string is refused with `EILSEQ`.
pub fn decode_name(bytes: &[u8]) -> (r: Result<&str, Errno>)
    ensures
        r is Ok <==> valid_utf8(bytes@),
        r matches Ok(name) ==> name@ == decode_utf8(bytes@),
        r matches Err(e) ==> e == Errno::EILSEQ,
{
    match str_from_utf8(bytes) {
        Some(name) => {
            proof {
                encode_utf8_decode_utf8(name@);
            }
            Ok(name)
        },
        None => Err(Errno::EILSEQ),
    }
}

/// A string holds a NUL exactly if one of its characters is NUL.
pub proof fn law_nul_is_found_where_it_is(s: &str, r: bool)
    requires
        call_ensures(contains_nul, (s,), r),
    ensures
        r <==> exists|i: int| 0 <= i < s@.len() && #[trigger] s@[i] == '\0',
{
}

/// A name is decoded exactly if it is UTF-8, and encodes to the bytes that came;
/// any other is refused with `EILSEQ`.
pub proof fn law_name_is_what_was_sent(bytes: &[u8], r: Result<&str, Errno>)
    requires
        call_ensures(decode_name, (bytes,), r),
    ensures
        match r {
            Ok(name) => valid_utf8(bytes@) && encode_utf8(name@) == bytes@,
            Err(e) => !valid_utf8(bytes@) && e == Errno::EILSEQ,
        },
{
    if valid_utf8(bytes@) {
        decode_utf8_encode_utf8(bytes@);
    }
}

} // verus!
