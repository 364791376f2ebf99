use vstd::prelude::*;
use vstd::string::StringExecFns;
use vstd::bytes::{spec_u64_to_le_bytes, spec_u64_from_le_bytes, u64_to_le_bytes, lemma_auto_spec_u64_to_from_le_bytes};
use crate::address::Address;

verus! {

/// The value stored under every checkpoint key. Only the presence of a key
/// carries meaning.
pub const MARKER: u8 = 1;

/// Key of the checkpoint "this block has been fully scanned": the height as
/// eight little-endian bytes.
pub open spec fn block_key_spec(height: u64) -> Seq<u8> {
    spec_u64_to_le_bytes(height)
}

/// Key of the checkpoint "the code of this address has been fetched": the
/// twenty bytes of the address.
pub open spec fn address_key_spec(address: Address) -> Seq<u8> {
    address@
}

pub fn block_key(height: u64) -> (key: Vec<u8>)
    ensures
        key@ == block_key_spec(height),
        key@.len() == 8,
{
    u64_to_le_bytes(height)
}

pub fn address_key(address: &Address) -> (key: Vec<u8>)
    ensures
        key@ == address_key_spec(*address),
        key@.len() == 20,
{
    address.to_vec()
}

/// Different heights have different block keys.
pub proof fn law_block_keys_distinct(a: u64, b: u64)
    requires
        block_key_spec(a) == block_key_spec(b),
    ensures
        a == b,
{
    lemma_auto_spec_u64_to_from_le_bytes();
    assert(spec_u64_from_le_bytes(spec_u64_to_le_bytes(a)) == a);
    assert(spec_u64_from_le_bytes(spec_u64_to_le_bytes(b)) == b);
}

/// Different addresses have different address keys.
pub proof fn law_address_keys_distinct(a: Address, b: Address)
    requires
        address_key_spec(a) == address_key_spec(b),
    ensures
        a == b,
{
    assert(a.bytes =~= b.bytes);
}

/// A block key is never an address key: both kinds share one key space
/// without meeting.
pub proof fn law_key_kinds_apart(height: u64, address: Address)
    ensures
        block_key_spec(height) != address_key_spec(address),
{
    lemma_auto_spec_u64_to_from_le_bytes();
    assert(block_key_spec(height).len() == 8);
    assert(address_key_spec(address).len() == 20);
}

/// The decimal digit for a number below ten.
pub open spec fn digit(d: nat) -> char {
    if d == 0 {
        '0'
    } else if d == 1 {
        '1'
    } else if d == 2 {
        '2'
    } else if d == 3 {
        '3'
    } else if d == 4 {
        '4'
    } else if d == 5 {
        '5'
    } else if d == 6 {
        '6'
    } else if d == 7 {
        '7'
    } else if d == 8 {
        '8'
    } else {
        '9'
    }
}

/// A number in decimal digits, without leading zeros.
pub open spec fn decimal(n: nat) -> Seq<char>
    decreases n,
{
    if n < 10 {
        seq![digit(n)]
    } else {
        decimal(n / 10).push(digit(n % 10))
    }
}

/// The name of the checkpoint namespace of a chain: the checkpoints of
/// different chains are kept apart.
pub open spec fn namespace_spec(chain_id: u64) -> Seq<char> {
    "chain_id_"@ + decimal(chain_id as nat)
}

fn digit_text(d: u64) -> (text: &'static str)
    requires
        d < 10,
    ensures
        text@ == seq![digit(d as nat)],
{
    proof {
        reveal_strlit("0");
        reveal_strlit("1");
        reveal_strlit("2");
        reveal_strlit("3");
        reveal_strlit("4");
        reveal_strlit("5");
        reveal_strlit("6");
        reveal_strlit("7");
        reveal_strlit("8");
        reveal_strlit("9");
    }
    let text = if d == 0 {
        "0"
    } else if d == 1 {
        "1"
    } else if d == 2 {
        "2"
    } else if d == 3 {
        "3"
    } else if d == 4 {
        "4"
    } else if d == 5 {
        "5"
    } else if d == 6 {
        "6"
    } else if d == 7 {
        "7"
    } else if d == 8 {
        "8"
    } else {
        "9"
    };
    assert(text@ =~= seq![digit(d as nat)]);
    text
}

fn push_decimal(text: &mut String, n: u64)
    ensures
        final(text)@ == old(text)@ + decimal(n as nat),
    decreases n,
{
    if n >= 10 {
        push_decimal(text, n / 10);
    }
    text.append(digit_text(n % 10));
    assert(final(text)@ =~= old(text)@ + decimal(n as nat));
}

/// The name of the checkpoint namespace of the chain with this identifier.
pub fn namespace(chain_id: u64) -> (name: String)
    ensures
        name@ == namespace_spec(chain_id),
{
    let mut name = String::from_str("chain_id_");
    push_decimal(&mut name, chain_id);
    name
}

/// Different chains have different namespaces.
pub proof fn law_namespaces_distinct(a: u64, b: u64)
    requires
        namespace_spec(a) == namespace_spec(b),
    ensures
        a == b,
{
    let prefix = "chain_id_"@;
    assert(decimal(a as nat) == (prefix + decimal(a as nat)).skip(prefix.len() as int));
    assert(decimal(b as nat) == (prefix + decimal(b as nat)).skip(prefix.len() as int));
    lemma_decimal_distinct(a as nat, b as nat);
}

proof fn lemma_decimal_distinct(a: nat, b: nat)
    requires
        decimal(a) == decimal(b),
    ensures
        a == b,
    decreases a,
{
    lemma_decimal_len(a);
    lemma_decimal_len(b);
    if a < 10 && b < 10 {
        assert(decimal(a)[0] == digit(a));
        assert(decimal(b)[0] == digit(b));
        lemma_digit_distinct(a, b);
    } else if a < 10 || b < 10 {
        assert(decimal(a).len() == decimal(b).len());
    } else {
        assert(decimal(a).drop_last() == decimal(a / 10));
        assert(decimal(b).drop_last() == decimal(b / 10));
        assert(decimal(a).last() == digit(a % 10));
        assert(decimal(b).last() == digit(b % 10));
        lemma_digit_distinct(a % 10, b % 10);
        lemma_decimal_distinct(a / 10, b / 10);
    }
}

proof fn lemma_digit_distinct(a: nat, b: nat)
    requires
        a < 10,
        b < 10,
        digit(a) == digit(b),
    ensures
        a == b,
{
}

proof fn lemma_decimal_len(n: nat)
    ensures
        decimal(n).len() >= 1,
        n >= 10 ==> decimal(n).len() >= 2,
    decreases n,
{
    if n >= 10 {
        lemma_decimal_len(n / 10);
    }
}

} // verus!
