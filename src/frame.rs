use vstd::prelude::*;

verus! {

/// The size of the buffer a node reads each datagram into. It is larger
/// than any UDP payload, so a datagram that fills it was cut short.
pub const RECEIVE_BUFFER: usize = 65536;

/// The largest encoded event that one datagram carries.
pub const MAX_DATAGRAM: usize = 65507;

/// Whether an encoded event can go out as one datagram.
pub fn fits_datagram(bytes: &Vec<u8>) -> (r: bool)
    ensures
        r == (bytes@.len() <= MAX_DATAGRAM),
{
    bytes.len() <= MAX_DATAGRAM
}

/// The bytes of a datagram that was read into `buf` and reported `size`
/// bytes long. There are none when the datagram may have been cut short:
/// when it filled the whole buffer, or claims more bytes than it holds.
pub fn received_payload(buf: &[u8], size: usize) -> (r: Option<Vec<u8>>)
    ensures
        r is Some <==> size < buf@.len(),
        r matches Some(v) ==> v@ == buf@.subrange(0, size as int),
{
    if size >= buf.len() {
        return None;
    }
    let mut out: Vec<u8> = Vec::with_capacity(size);
    let mut i: usize = 0;
    while i < size
        invariant
            i <= size < buf@.len(),
            out@ == buf@.subrange(0, i as int),
        decreases size - i,
    {
        out.push(buf[i]);
        i += 1;
    }
    Some(out)
}

} // verus!
