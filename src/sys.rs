use vstd::prelude::*;

verus! {

/// Relies on libc::IF_NAMESIZE: an interface name buffer holds 16 bytes,
/// the terminating nul included.
#[verifier::external_body]
pub(crate) fn if_namesize() -> (r: usize)
    ensures
        r == 16,
{
    libc::IF_NAMESIZE
}

/// Relies on libc::ETH_FRAME_LEN: the largest Ethernet frame is 1514 bytes.
#[verifier::external_body]
pub(crate) fn eth_frame_len() -> (r: usize)
    ensures
        r == 1514,
{
    libc::ETH_FRAME_LEN as usize
}

/// Relies on libc::IFF_TUN: the TUNSETIFF flag for an IP-level device, 0x0001.
#[verifier::external_body]
pub(crate) fn iff_tun() -> (r: i16)
    ensures
        r == 0x0001,
{
    libc::IFF_TUN as i16
}

/// Relies on libc::IFF_NO_PI: the TUNSETIFF flag that drops the packet
/// information header, 0x1000.
#[verifier::external_body]
pub(crate) fn iff_no_pi() -> (r: i16)
    ensures
        r == 0x1000,
{
    libc::IFF_NO_PI as i16
}

/// Relies on String::from_utf8: it succeeds exactly on valid UTF-8 and then
/// holds the decoded characters.
#[verifier::external_body]
pub(crate) fn utf8_string(bytes: Vec<u8>) -> (r: Option<String>)
    ensures
        r.is_some() <==> vstd::utf8::valid_utf8(bytes@),
        r matches Some(s) ==> s@ == vstd::utf8::decode_utf8(bytes@),
{
    String::from_utf8(bytes).ok()
}

} // verus!
