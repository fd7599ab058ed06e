use vstd::prelude::*;

verus! {

/// A 32-byte identity: an account address or a public key.
pub type Key = [u8; 32];

/// Compares two identities byte by byte.
pub fn same_key(a: &Key, b: &Key) -> (r: bool)
    ensures
        r == (a@ == b@),
{
    let mut i: usize = 0;
    while i < 32
        invariant
            0 <= i <= 32,
            forall|j: int| 0 <= j < i ==> a@[j] == b@[j],
        decreases 32 - i,
    {
        if a[i] != b[i] {
            return false;
        }
        i = i + 1;
    }
    assert(a@ =~= b@);
    true
}

/// One argument of a request to the computation cluster.
#[derive(Clone, Copy, Debug, PartialEq, Eq)]
pub enum Argument {
    /// The respondent's public encryption key.
    ArcisPubkey(Key),
    /// A plaintext 128-bit value (a nonce).
    PlaintextU128(u128),
    /// An encrypted boolean input.
    EncryptedBool([u8; 32]),
    /// An encrypted one-byte input.
    EncryptedU8([u8; 32]),
    /// A slice of an account's data: the account, the byte offset and the length.
    Account(Key, u32, u32),
}

/// A computation request handed to the cluster, bound to its eventual callback by
/// `computation_offset`.
pub struct ComputationRequest {
    /// The correlation token of this request.
    pub computation_offset: u64,
    /// The stable identifier of the circuit to run.
    pub comp_def_offset: u32,
    /// The arguments of the circuit, in order.
    pub args: Vec<Argument>,
    /// The account that the callback writes to, if any.
    pub callback_account: Option<Key>,
}

/// What the cluster hands back to a callback.
pub enum CallbackOutput<O> {
    /// The computation finished with this result.
    Success(O),
    /// The cluster reports that the computation was aborted.
    Aborted,
}

/// An aggregate sealed under the cluster's key: one 32-byte ciphertext per field,
/// with the nonce it was sealed under.
pub struct SealedAggregate<const N: usize> {
    pub nonce: u128,
    pub ciphertexts: [[u8; 32]; N],
}

/// The identifier of a circuit, derived from its name.
pub uninterp spec fn comp_def_offset_of(name: Seq<char>) -> u32;

/// Relies on arcium_anchor::comp_def_offset: the identifier is a function of the
/// circuit's name alone.
#[verifier::external_body]
pub(crate) fn circuit_offset(name: &str) -> (r: u32)
    ensures
        r == comp_def_offset_of(name@),
{
    arcium_anchor::comp_def_offset(name)
}

} // verus!
