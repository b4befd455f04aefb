use vstd::prelude::*;
use crate::error::IfaceError;
use crate::sys::{if_namesize, utf8_string};

verus! {

/// Size of the kernel's interface name buffer, nul included.
pub const IFNAME_BUF_LEN: usize = 16;

/// The bytes of the name buffer sent with the interface-creation request:
/// the UTF-8 encoding of the name, padded with nul bytes.
pub open spec fn ifr_name_bytes(name: Seq<char>) -> Seq<u8> {
    let b = vstd::utf8::encode_utf8(name);
    b + Seq::new((IFNAME_BUF_LEN - b.len()) as nat, |i: int| 0u8)
}

/// A name can be sent to the kernel when it holds no nul byte and leaves
/// room in the buffer for the terminating nul.
pub open spec fn name_error(name: Seq<char>) -> Option<IfaceError> {
    let b = vstd::utf8::encode_utf8(name);
    if b.contains(0u8) {
        Some(IfaceError::NameContainsNul)
    } else if b.len() >= IFNAME_BUF_LEN {
        Some(IfaceError::NameTooLong)
    } else {
        None
    }
}

/// Encodes a requested interface name into the kernel's fixed-size,
/// nul-padded name buffer.
pub fn encode_ifr_name(name: &str) -> (r: Result<Vec<u8>, IfaceError>)
    ensures
        match name_error(name@) {
            Some(e) => r == Err::<Vec<u8>, IfaceError>(e),
            None => r matches Ok(v) && v@ == ifr_name_bytes(name@) && v@.len() == IFNAME_BUF_LEN,
        },
{
    let bytes = name.as_bytes();
    assert(bytes@ == vstd::utf8::encode_utf8(name@));
    let mut i: usize = 0;
    while i < bytes.len()
        invariant
            i <= bytes@.len(),
            bytes@ == vstd::utf8::encode_utf8(name@),
            forall|j: int| 0 <= j < i ==> bytes@[j] != 0u8,
        decreases bytes@.len() - i,
    {
        if bytes[i] == 0 {
            assert(bytes@[i as int] == 0u8);
            assert(bytes@.contains(0u8));
            return Err(IfaceError::NameContainsNul);
        }
        i = i + 1;
    }
    assert(!bytes@.contains(0u8));
    let size = if_namesize();
    if bytes.len() >= size {
        return Err(IfaceError::NameTooLong);
    }
    let mut v: Vec<u8> = Vec::new();
    let mut k: usize = 0;
    while k < bytes.len()
        invariant
            k <= bytes@.len(),
            v@ == bytes@.subrange(0, k as int),
        decreases bytes@.len() - k,
    {
        v.push(bytes[k]);
        k = k + 1;
    }
    while v.len() < size
        invariant
            size == IFNAME_BUF_LEN,
            bytes@.len() <= v@.len() <= size,
            v@.subrange(0, bytes@.len() as int) == bytes@,
            forall|j: int| bytes@.len() <= j < v@.len() ==> v@[j] == 0u8,
        decreases size - v@.len(),
    {
        v.push(0u8);
    }
    assert(v@ =~= ifr_name_bytes(name@));
    Ok(v)
}

/// `n` is where the name in a returned name buffer ends: no nul before it,
/// and a nul or the end of the buffer at it.
pub open spec fn is_name_end(buf: Seq<u8>, n: int) -> bool {
    &&& 0 <= n <= buf.len()
    &&& forall|j: int| 0 <= j < n ==> buf[j] != 0u8
    &&& (n == buf.len() || buf[n] == 0u8)
}

/// The bytes of a returned name buffer up to its first nul.
pub open spec fn name_prefix(buf: Seq<u8>) -> Seq<u8> {
    buf.take(choose|n: int| is_name_end(buf, n))
}

proof fn lemma_name_end_unique(buf: Seq<u8>, n: int, m: int)
    requires
        is_name_end(buf, n),
        is_name_end(buf, m),
    ensures
        n == m,
{
    if n < m {
        assert(buf[n] != 0u8);
    } else if m < n {
        assert(buf[m] != 0u8);
    }
}

/// Reads the device name that the kernel wrote back into the name buffer:
/// the bytes up to the first nul, which must be valid UTF-8.
pub fn decode_ifr_name(buf: &[u8]) -> (r: Result<String, IfaceError>)
    ensures
        vstd::utf8::valid_utf8(name_prefix(buf@)) ==> (r matches Ok(s) && s@
            == vstd::utf8::decode_utf8(name_prefix(buf@))),
        !vstd::utf8::valid_utf8(name_prefix(buf@)) ==> r == Err::<String, IfaceError>(
            IfaceError::NameNotUtf8,
        ),
{
    let mut n: usize = 0;
    while n < buf.len() && buf[n] != 0
        invariant
            n <= buf@.len(),
            forall|j: int| 0 <= j < n ==> buf@[j] != 0u8,
        decreases buf@.len() - n,
    {
        n = n + 1;
    }
    proof {
        assert(is_name_end(buf@, n as int));
        let c = choose|m: int| is_name_end(buf@, m);
        lemma_name_end_unique(buf@, n as int, c);
    }
    let mut v: Vec<u8> = Vec::new();
    let mut k: usize = 0;
    while k < n
        invariant
            k <= n <= buf@.len(),
            v@ == buf@.subrange(0, k as int),
        decreases n - k,
    {
        v.push(buf[k]);
        k = k + 1;
    }
    assert(v@ =~= name_prefix(buf@));
    match utf8_string(v) {
        Some(s) => Ok(s),
        None => Err(IfaceError::NameNotUtf8),
    }
}

} // verus!
