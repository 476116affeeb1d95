use vstd::prelude::*;
use vstd::string::*;
use vstd::utf8::*;
use crate::error::Error;

verus! {

/// The bytes of a C string holding `bytes`: the bytes and a terminating NUL.
pub open spec fn c_string_of(bytes: Seq<u8>) -> Seq<u8> {
    bytes.push(0u8)
}

/// Whether `bytes` can stand in a C string: it holds no NUL byte.
pub open spec fn nul_free(bytes: Seq<u8>) -> bool {
    forall|i: int| 0 <= i < bytes.len() ==> bytes[i] != 0u8
}

/// The outcome of encoding text whose UTF-8 bytes are `bytes` as a C string.
pub open spec fn c_string_result(bytes: Seq<u8>) -> Result<Seq<u8>, Error> {
    if nul_free(bytes) {
        Ok(c_string_of(bytes))
    } else {
        Err(Error::InvalidInput)
    }
}

/// Encodes `s` as a NUL-terminated byte string for the kernel interface.
///
/// Text with an interior NUL byte cannot be encoded and is rejected with
/// `InvalidInput`.
pub fn str_to_cstring(s: &str) -> (r: Result<Vec<u8>, Error>)
    ensures
        nul_free(s.spec_bytes()) <==> r is Ok,
        r is Ok ==> r->Ok_0@ == c_string_of(s.spec_bytes()),
        r is Err ==> r->Err_0 == Error::InvalidInput,
{
    let mut bytes = s.as_bytes_vec();
    let n = bytes.len();
    let mut i: usize = 0;
    while i < n
        invariant
            n == bytes@.len(),
            bytes@ == s.spec_bytes(),
            i <= n,
            forall|j: int| 0 <= j < i ==> bytes@[j] != 0u8,
        decreases n - i,
    {
        if bytes[i] == 0u8 {
            return Err(Error::InvalidInput);
        }
        i = i + 1;
    }
    bytes.push(0u8);
    Ok(bytes)
}

/// Encodes an optional name; `None` stays `None`.
pub fn opt_str_to_cstring(s: Option<&str>) -> (r: Result<Option<Vec<u8>>, Error>)
    ensures
        s is None ==> r == Ok::<Option<Vec<u8>>, Error>(None),
        s is Some ==> (nul_free(s->Some_0.spec_bytes()) <==> r is Ok),
        s is Some && r is Ok ==> r->Ok_0 is Some
            && r->Ok_0->Some_0@ == c_string_of(s->Some_0.spec_bytes()),
        r is Err ==> r->Err_0 == Error::InvalidInput,
{
    match s {
        None => Ok(None),
        Some(name) => match str_to_cstring(name) {
            Ok(c) => Ok(Some(c)),
            Err(e) => Err(e),
        },
    }
}

/// The bytes of a kernel-supplied C string: those before the first NUL, or
/// all of them where there is none.
pub open spec fn before_nul(bytes: Seq<u8>) -> Seq<u8>
    decreases bytes.len(),
{
    if bytes.len() == 0 {
        bytes
    } else if bytes[0] == 0u8 {
        Seq::empty()
    } else {
        seq![bytes[0]].add(before_nul(bytes.drop_first()))
    }
}

/// Relies on `String::from_utf8`: it succeeds exactly on valid UTF-8, and
/// the string then holds the characters those bytes encode.
#[verifier::external_body]
fn utf8_to_string(bytes: Vec<u8>) -> (r: Option<String>)
    ensures
        r is Some <==> valid_utf8(bytes@),
        r is Some ==> r->Some_0@ == decode_utf8(bytes@),
{
    String::from_utf8(bytes).ok()
}

/// Decodes a name that the kernel handed over as a C string (`bytes` may
/// hold the terminating NUL and what follows it).
///
/// Fails with `InvalidData` where the name is not valid UTF-8.
pub fn c_bytes_to_string(bytes: &[u8]) -> (r: Result<String, Error>)
    ensures
        valid_utf8(before_nul(bytes@)) <==> r is Ok,
        r is Ok ==> r->Ok_0@ == decode_utf8(before_nul(bytes@)),
        r is Err ==> r->Err_0 == Error::InvalidData,
{
    let mut out: Vec<u8> = Vec::new();
    let mut i: usize = 0;
    assert(bytes@.subrange(0, bytes@.len() as int) =~= bytes@);
    assert(out@.add(bytes@) =~= bytes@);
    while i < bytes.len() && bytes[i] != 0u8
        invariant
            i <= bytes@.len(),
            forall|j: int| 0 <= j < i ==> bytes@[j] != 0u8,
            out@ == bytes@.subrange(0, i as int),
            before_nul(bytes@) == out@.add(before_nul(bytes@.subrange(i as int, bytes@.len() as int))),
        decreases bytes.len() - i,
    {
        let ghost rest = bytes@.subrange(i as int, bytes@.len() as int);
        assert(rest.drop_first() =~= bytes@.subrange(i + 1, bytes@.len() as int));
        out.push(bytes[i]);
        i = i + 1;
        assert(before_nul(bytes@) == out@.add(before_nul(bytes@.subrange(i as int, bytes@.len() as int))));
    }
    proof {
        let rest = bytes@.subrange(i as int, bytes@.len() as int);
        assert(before_nul(rest) =~= Seq::<u8>::empty());
        assert(out@.add(Seq::<u8>::empty()) =~= out@);
    }
    match utf8_to_string(out) {
        Some(s) => Ok(s),
        None => Err(Error::InvalidData),
    }
}

} // verus!
