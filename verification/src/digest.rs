use vstd::prelude::*;

verus! {

/// The content hash of a bytecode: the key under which it is stored.
#[derive(Clone, Copy, Debug, PartialEq, Eq, Hash)]
pub struct ContentHash {
    pub bytes: [u8; 32],
}

impl View for ContentHash {
    type V = Seq<u8>;

    open spec fn view(&self) -> Seq<u8> {
        self.bytes@
    }
}

/// The Keccak-256 digest of a byte string, as `revm_bytecode` computes it for
/// the code it is given.
pub uninterp spec fn keccak256(data: Seq<u8>) -> Seq<u8>;

/// Code that announces itself as an account delegation (it starts with the
/// bytes `ef 01`) without having the shape of one: 23 bytes, the third of
/// them zero.
pub open spec fn is_malformed_delegation(code: Seq<u8>) -> bool {
    &&& code.len() >= 2
    &&& code[0] == 0xef
    &&& code[1] == 0x01
    &&& (code.len() != 23 || code[2] != 0)
}

pub fn has_malformed_delegation(code: &Vec<u8>) -> (malformed: bool)
    ensures
        malformed == is_malformed_delegation(code@),
{
    if code.len() < 2 {
        return false;
    }
    if code[0] != 0xef || code[1] != 0x01 {
        return false;
    }
    code.len() != 23 || code[2] != 0
}

/// `revm_bytecode::Bytecode::new_raw` followed by `Bytecode::hash_slow`.
///
/// `new_raw` panics on code that starts with `ef 01` and is not a well-formed
/// delegation, so such code is kept out. On all other code the bytecode it
/// builds keeps the bytes it was given, apart from padding that it sets
/// aside again, and `hash_slow` is the Keccak-256 digest of the bytes given
/// (the digest of the empty string for empty code). The digest itself is
/// taken on trust.
#[verifier::external_body]
fn raw_code_hash(code: &Vec<u8>) -> (hash: [u8; 32])
    requires
        !is_malformed_delegation(code@),
    ensures
        hash@ == keccak256(code@),
{
    revm_bytecode::Bytecode::new_raw(code.clone().into()).hash_slow().0
}

/// The content hash of `code`, or `None` for code that the bytecode decoder
/// rejects.
pub fn content_hash(code: &Vec<u8>) -> (hash: Option<ContentHash>)
    ensures
        is_malformed_delegation(code@) <==> hash is None,
        hash matches Some(h) ==> h@ == keccak256(code@),
{
    if has_malformed_delegation(code) {
        None
    } else {
        Some(ContentHash { bytes: raw_code_hash(code) })
    }
}

/// Two hashes with the same bytes are the same hash.
pub proof fn law_hash_by_bytes(a: ContentHash, b: ContentHash)
    requires
        a@ == b@,
    ensures
        a == b,
{
    assert(a.bytes =~= b.bytes);
}

} // verus!
