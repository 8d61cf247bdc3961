//! Certificate preparation for the secure session.
//!
//! The TLS layer borrows each credential buffer as PEM text delimited by a
//! NUL terminator, so every raw buffer is transformed exactly once at
//! startup by appending a single zero byte.

use vstd::prelude::*;

verus! {

/// A buffer in the form the secure-session layer borrows: non-empty and
/// ending in the NUL terminator that delimits the PEM text.
pub open spec fn nul_terminated(b: Seq<u8>) -> bool {
    b.len() > 0 && b.last() == 0u8
}

/// Appends the single NUL terminator the secure-session layer requires,
/// leaving the original bytes unchanged in content and order before it.
pub fn transform(cert: Vec<u8>) -> (r: Vec<u8>)
    ensures
        r@ == cert@.push(0u8),
        nul_terminated(r@),
{
    let mut r = cert;
    r.push(0u8);
    r
}

/// Law: for a buffer that does not already end in a zero byte, the
/// transformed buffer ends in exactly one zero byte, and the bytes before
/// that terminator are the original bytes, unchanged in content and order.
pub proof fn lemma_transform_single_terminator(b: Seq<u8>)
    requires
        b.len() == 0 || b.last() != 0u8,
    ensures
        b.push(0u8).len() == b.len() + 1,
        b.push(0u8).last() == 0u8,
        b.push(0u8).subrange(0, b.len() as int) == b,
        b.len() > 0 ==> b.push(0u8)[b.len() - 1] != 0u8,
{
    assert(b.push(0u8).subrange(0, b.len() as int) =~= b);
}

/// The three transformed credential buffers handed to the secure-session
/// configuration: root authority certificate, device certificate, and
/// device private key.
pub struct Credentials {
    pub server_cert: Vec<u8>,
    pub client_cert: Vec<u8>,
    pub private_key: Vec<u8>,
}

impl Credentials {
    /// Every buffer is in the NUL-terminated form the TLS layer requires.
    pub open spec fn wf(self) -> bool {
        nul_terminated(self.server_cert@) && nul_terminated(self.client_cert@)
            && nul_terminated(self.private_key@)
    }
}

/// Transforms the three raw credential buffers, each exactly once.
pub fn prepare_credentials(server_cert: Vec<u8>, client_cert: Vec<u8>, private_key: Vec<u8>) -> (r:
    Credentials)
    ensures
        r.server_cert@ == server_cert@.push(0u8),
        r.client_cert@ == client_cert@.push(0u8),
        r.private_key@ == private_key@.push(0u8),
        r.wf(),
{
    Credentials {
        server_cert: transform(server_cert),
        client_cert: transform(client_cert),
        private_key: transform(private_key),
    }
}

} // verus!
