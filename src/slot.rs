use vstd::prelude::*;
use vstd::bytes::{
    lemma_auto_spec_u64_to_from_le_bytes, spec_u64_from_le_bytes, spec_u64_to_le_bytes,
    u64_from_le_bytes, u64_to_le_bytes,
};
use vstd::slice::slice_subrange;

verus! {

/// Length of the stored-balance field at the start of an initialized slot's data.
pub const BALANCE_LEN: usize = 8;

/// A 32-byte public identifier of a signer or of a program.
#[derive(Clone, Copy, Debug)]
pub struct Identity {
    pub bytes: [u8; 32],
}

impl View for Identity {
    type V = Seq<u8>;

    open spec fn view(&self) -> Seq<u8> {
        self.bytes@
    }
}

impl Identity {
    pub fn new(bytes: [u8; 32]) -> (r: Identity)
        ensures
            r@ == bytes@,
    {
        Identity { bytes }
    }
}

impl PartialEq for Identity {
    fn eq(&self, other: &Identity) -> (r: bool)
        ensures
            r == (self@ == other@),
    {
        let mut i: usize = 0;
        while i < 32
            invariant
                0 <= i <= 32,
                self@.len() == 32,
                other@.len() == 32,
                forall|j: int| 0 <= j < i ==> self@[j] == other@[j],
            decreases 32 - i,
        {
            if self.bytes[i] != other.bytes[i] {
                return false;
            }
            i = i + 1;
        }
        assert(self@ =~= other@);
        true
    }
}

impl vstd::std_specs::cmp::PartialEqSpecImpl for Identity {
    open spec fn obeys_eq_spec() -> bool {
        true
    }

    open spec fn eq_spec(&self, other: &Identity) -> bool {
        self@ == other@
    }
}

/// A storage slot as the host presents it to one invocation: its address, whether
/// that address signed the invocation, its attached native-currency amount, its
/// data buffer and the program that owns it.
#[derive(Debug)]
pub struct Slot {
    pub key: Identity,
    pub is_signer: bool,
    pub lamports: u64,
    pub data: Vec<u8>,
    pub owner: Identity,
}

/// The mathematical value of a [`Slot`].
pub struct SlotView {
    pub key: Seq<u8>,
    pub is_signer: bool,
    pub lamports: u64,
    pub data: Seq<u8>,
    pub owner: Seq<u8>,
}

impl View for Slot {
    type V = SlotView;

    open spec fn view(&self) -> SlotView {
        SlotView {
            key: self.key@,
            is_signer: self.is_signer,
            lamports: self.lamports,
            data: self.data@,
            owner: self.owner@,
        }
    }
}

/// The values of an ordered list of slots.
pub open spec fn slots_view(s: Seq<Slot>) -> Seq<SlotView> {
    s.map_values(|x: Slot| x@)
}

/// A slot holds a stored balance once its data has room for the balance field.
pub open spec fn is_initialized(data: Seq<u8>) -> bool {
    data.len() >= BALANCE_LEN
}

/// The stored balance: the first eight data bytes read as a little-endian u64.
pub open spec fn stored_balance(data: Seq<u8>) -> u64 {
    spec_u64_from_le_bytes(data.subrange(0, BALANCE_LEN as int))
}

/// The data buffer with its balance field set to `v` and every later byte kept.
pub open spec fn with_balance(data: Seq<u8>, v: u64) -> Seq<u8> {
    spec_u64_to_le_bytes(v) + data.subrange(BALANCE_LEN as int, data.len() as int)
}

/// Writing a balance and reading it back gives the written value, and the buffer
/// keeps its length.
pub proof fn lemma_stored_balance_with_balance(data: Seq<u8>, v: u64)
    requires
        is_initialized(data),
    ensures
        with_balance(data, v).len() == data.len(),
        stored_balance(with_balance(data, v)) == v,
{
    lemma_auto_spec_u64_to_from_le_bytes();
    assert(with_balance(data, v).subrange(0, BALANCE_LEN as int) =~= spec_u64_to_le_bytes(v));
}

/// Reads the stored balance of an initialized data buffer.
pub fn read_balance(data: &Vec<u8>) -> (r: u64)
    requires
        is_initialized(data@),
    ensures
        r == stored_balance(data@),
{
    u64_from_le_bytes(slice_subrange(data.as_slice(), 0, BALANCE_LEN))
}

/// The stored balance of a slot's raw data as a reader outside the ledger sees
/// it: present once the data has room for the balance field.
pub fn balance_of(data: &[u8]) -> (r: Option<u64>)
    ensures
        r == (if is_initialized(data@) {
            Some(stored_balance(data@))
        } else {
            None::<u64>
        }),
{
    if data.len() >= BALANCE_LEN {
        Some(u64_from_le_bytes(slice_subrange(data, 0, BALANCE_LEN)))
    } else {
        None
    }
}

/// Overwrites the balance field of an initialized data buffer with `v`.
pub fn write_balance(data: &mut Vec<u8>, v: u64)
    requires
        is_initialized(old(data)@),
    ensures
        final(data)@ == with_balance(old(data)@, v),
{
    let bytes = u64_to_le_bytes(v);
    let mut i: usize = 0;
    while i < BALANCE_LEN
        invariant
            0 <= i <= BALANCE_LEN,
            bytes@ == spec_u64_to_le_bytes(v),
            bytes@.len() == BALANCE_LEN,
            old(data)@.len() >= BALANCE_LEN,
            data@.len() == old(data)@.len(),
            forall|j: int| 0 <= j < i ==> data@[j] == bytes@[j],
            forall|j: int| i <= j < data@.len() ==> data@[j] == old(data)@[j],
        decreases BALANCE_LEN - i,
    {
        data.set(i, bytes[i]);
        i = i + 1;
    }
    assert(data@ =~= with_balance(old(data)@, v));
}

} // verus!
