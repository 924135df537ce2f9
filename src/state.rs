use vstd::prelude::*;
use crate::error::ProcessError;
use crate::pubkey::Pubkey;

verus! {

/// The little-endian bytes of `x`.
pub open spec fn le_bytes(x: u64) -> Seq<u8> {
    seq![
        x as u8,
        (x >> 8u64) as u8,
        (x >> 16u64) as u8,
        (x >> 24u64) as u8,
        (x >> 32u64) as u8,
        (x >> 40u64) as u8,
        (x >> 48u64) as u8,
        (x >> 56u64) as u8,
    ]
}

/// The integer whose little-endian bytes are the first eight of `b`.
pub open spec fn le_value(b: Seq<u8>) -> u64
    recommends
        b.len() >= 8,
{
    (b[0] as u64) | ((b[1] as u64) << 8u64) | ((b[2] as u64) << 16u64) | ((b[3] as u64)
        << 24u64) | ((b[4] as u64) << 32u64) | ((b[5] as u64) << 40u64) | ((b[6] as u64)
        << 48u64) | ((b[7] as u64) << 56u64)
}

/// Reads a little-endian `u64` from the eight bytes of `src` at `start`.
pub fn read_u64_le(src: &[u8], start: usize) -> (r: u64)
    requires
        start + 8 <= src@.len(),
    ensures
        r == le_value(src@.subrange(start as int, start + 8)),
{
    (src[start] as u64) | ((src[start + 1] as u64) << 8u64) | ((src[start + 2] as u64) << 16u64)
        | ((src[start + 3] as u64) << 24u64) | ((src[start + 4] as u64) << 32u64) | ((src[start
        + 5] as u64) << 40u64) | ((src[start + 6] as u64) << 48u64) | ((src[start + 7] as u64)
        << 56u64)
}

/// Decoding the little-endian bytes of `x` gives `x` back.
pub proof fn lemma_le_round_trip(x: u64)
    ensures
        le_value(le_bytes(x)) == x,
{
    let b = le_bytes(x);
    assert(((x as u8) as u64) | ((((x >> 8u64) as u8) as u64) << 8u64) | ((((x >> 16u64) as u8)
        as u64) << 16u64) | ((((x >> 24u64) as u8) as u64) << 24u64) | ((((x >> 32u64) as u8)
        as u64) << 32u64) | ((((x >> 40u64) as u8) as u64) << 40u64) | ((((x >> 48u64) as u8)
        as u64) << 48u64) | ((((x >> 56u64) as u8) as u64) << 56u64) == x) by (bit_vector);
}

/// Mathematical value of an escrow record.
pub struct EscrowView {
    pub is_initialized: bool,
    pub initializer_pubkey: Seq<u8>,
    pub temp_token_account_pubkey: Seq<u8>,
    pub initializer_token_to_receive_account_pubkey: Seq<u8>,
    pub expected_amount: u64,
}

/// Size in bytes of a packed escrow record.
pub const ESCROW_LEN: usize = 105;

/// The 105 bytes of a record: the flag, the three keys, the amount.
pub open spec fn spec_pack(e: EscrowView) -> Seq<u8> {
    seq![if e.is_initialized { 1u8 } else { 0u8 }] + e.initializer_pubkey
        + e.temp_token_account_pubkey + e.initializer_token_to_receive_account_pubkey + le_bytes(
        e.expected_amount,
    )
}

/// The record held by the first 105 bytes of `s`, or `None` where the flag
/// byte is neither 0 nor 1.
pub open spec fn spec_unpack(s: Seq<u8>) -> Option<EscrowView>
    recommends
        s.len() >= 105,
{
    if s[0] == 0 || s[0] == 1 {
        Some(
            EscrowView {
                is_initialized: s[0] == 1,
                initializer_pubkey: s.subrange(1, 33),
                temp_token_account_pubkey: s.subrange(33, 65),
                initializer_token_to_receive_account_pubkey: s.subrange(65, 97),
                expected_amount: le_value(s.subrange(97, 105)),
            },
        )
    } else {
        None
    }
}

/// The persisted state of one escrow.
#[derive(Clone, Copy, Debug, PartialEq, Eq)]
pub struct Escrow {
    /// Whether the storage account is in use.
    pub is_initialized: bool,
    /// The depositing party.
    pub initializer_pubkey: Pubkey,
    /// The temporary account that holds the deposit.
    pub temp_token_account_pubkey: Pubkey,
    /// The account that the counterparty pays into.
    pub initializer_token_to_receive_account_pubkey: Pubkey,
    /// The amount of the counter-asset that releases the escrow.
    pub expected_amount: u64,
}

impl View for Escrow {
    type V = EscrowView;

    open spec fn view(&self) -> EscrowView {
        EscrowView {
            is_initialized: self.is_initialized,
            initializer_pubkey: self.initializer_pubkey@,
            temp_token_account_pubkey: self.temp_token_account_pubkey@,
            initializer_token_to_receive_account_pubkey:
                self.initializer_token_to_receive_account_pubkey@,
            expected_amount: self.expected_amount,
        }
    }
}

/// A record whose keys are 32 bytes each.
pub open spec fn escrow_view_wf(e: EscrowView) -> bool {
    &&& e.initializer_pubkey.len() == 32
    &&& e.temp_token_account_pubkey.len() == 32
    &&& e.initializer_token_to_receive_account_pubkey.len() == 32
}

impl Escrow {
    /// Size in bytes of a packed record.
    pub const LEN: usize = 105;

    /// Whether the record is in use.
    pub fn is_initialized(&self) -> (r: bool)
        ensures
            r == self.is_initialized,
    {
        self.is_initialized
    }

    /// Decodes the record held by the first 105 bytes of `src`.
    pub fn unpack_from_slice(src: &[u8]) -> (r: Result<Escrow, ProcessError>)
        requires
            src@.len() >= 105,
        ensures
            match r {
                Ok(e) => spec_unpack(src@) == Some(e@),
                Err(err) => spec_unpack(src@) is None && err == ProcessError::InvalidAccountData,
            },
            r is Ok <==> (src@[0] == 0 || src@[0] == 1),
            r is Ok ==> r->Ok_0.is_initialized == (src@[0] == 1),
    {
        let is_initialized = if src[0] == 0 {
            false
        } else if src[0] == 1 {
            true
        } else {
            return Err(ProcessError::InvalidAccountData);
        };
        let e = Escrow {
            is_initialized,
            initializer_pubkey: Pubkey::read_from(src, 1),
            temp_token_account_pubkey: Pubkey::read_from(src, 33),
            initializer_token_to_receive_account_pubkey: Pubkey::read_from(src, 65),
            expected_amount: read_u64_le(src, 97),
        };
        assert(src@.subrange(97, 105) =~= src@.subrange(97, 105));
        Ok(e)
    }

    /// Encodes the record into the first 105 bytes of `dst`; the bytes after
    /// those are left as they were.
    pub fn pack_into_slice(&self, dst: &mut [u8])
        requires
            old(dst)@.len() >= 105,
        ensures
            final(dst)@ == spec_pack(self@) + old(dst)@.subrange(105, old(dst)@.len() as int),
    {
        let ghost bytes = spec_pack(self@);
        let n = dst.len();
        dst[0] = if self.is_initialized { 1u8 } else { 0u8 };
        let mut i: usize = 0;
        while i < 32
            invariant
                i <= 32,
                n == dst@.len(),
                n == old(dst)@.len(),
                n >= 105,
                bytes == spec_pack(self@),
                bytes.len() == 105,
                forall|j: int| 0 <= j < 1 + i ==> dst@[j] == bytes[j],
                forall|j: int| 105 <= j < n ==> dst@[j] == old(dst)@[j],
            decreases 32 - i,
        {
            dst[1 + i] = self.initializer_pubkey.0[i];
            i = i + 1;
        }
        let mut i: usize = 0;
        while i < 32
            invariant
                i <= 32,
                n == dst@.len(),
                n == old(dst)@.len(),
                n >= 105,
                bytes == spec_pack(self@),
                bytes.len() == 105,
                forall|j: int| 0 <= j < 33 + i ==> dst@[j] == bytes[j],
                forall|j: int| 105 <= j < n ==> dst@[j] == old(dst)@[j],
            decreases 32 - i,
        {
            dst[33 + i] = self.temp_token_account_pubkey.0[i];
            i = i + 1;
        }
        let mut i: usize = 0;
        while i < 32
            invariant
                i <= 32,
                n == dst@.len(),
                n == old(dst)@.len(),
                n >= 105,
                bytes == spec_pack(self@),
                bytes.len() == 105,
                forall|j: int| 0 <= j < 65 + i ==> dst@[j] == bytes[j],
                forall|j: int| 105 <= j < n ==> dst@[j] == old(dst)@[j],
            decreases 32 - i,
        {
            dst[65 + i] = self.initializer_token_to_receive_account_pubkey.0[i];
            i = i + 1;
        }
        let x = self.expected_amount;
        dst[97] = x as u8;
        dst[98] = (x >> 8u64) as u8;
        dst[99] = (x >> 16u64) as u8;
        dst[100] = (x >> 24u64) as u8;
        dst[101] = (x >> 32u64) as u8;
        dst[102] = (x >> 40u64) as u8;
        dst[103] = (x >> 48u64) as u8;
        dst[104] = (x >> 56u64) as u8;
        assert(dst@ =~= bytes + old(dst)@.subrange(105, n as int));
    }
}


impl Escrow {
    /// Decodes a whole storage buffer, which must be exactly 105 bytes. The
    /// flag byte is not required to be set: a buffer of zeros decodes.
    pub fn unpack_unchecked(input: &[u8]) -> (r: Result<Escrow, ProcessError>)
        ensures
            input@.len() != 105 ==> r == Err::<Escrow, ProcessError>(
                ProcessError::InvalidAccountData,
            ),
            input@.len() == 105 ==> match r {
                Ok(e) => spec_unpack(input@) == Some(e@),
                Err(err) => spec_unpack(input@) is None && err == ProcessError::InvalidAccountData,
            },
    {
        if input.len() != Self::LEN {
            return Err(ProcessError::InvalidAccountData);
        }
        Self::unpack_from_slice(input)
    }

    /// Encodes `src` over the whole of `dst`, which must be exactly 105 bytes;
    /// otherwise `dst` is left alone.
    pub fn pack(src: Escrow, dst: &mut [u8]) -> (r: Result<(), ProcessError>)
        ensures
            old(dst)@.len() != 105 ==> r == Err::<(), ProcessError>(ProcessError::InvalidAccountData)
                && final(dst)@ == old(dst)@,
            old(dst)@.len() == 105 ==> r is Ok && final(dst)@ == spec_pack(src@),
    {
        if dst.len() != Self::LEN {
            return Err(ProcessError::InvalidAccountData);
        }
        src.pack_into_slice(dst);
        assert(final(dst)@ =~= spec_pack(src@));
        Ok(())
    }
}

/// Packing a record and unpacking the bytes gives the record back.
pub proof fn lemma_pack_unpack(e: EscrowView)
    requires
        escrow_view_wf(e),
    ensures
        spec_pack(e).len() == 105,
        spec_unpack(spec_pack(e)) == Some(e),
{
    let s = spec_pack(e);
    lemma_le_round_trip(e.expected_amount);
    assert(s.subrange(1, 33) =~= e.initializer_pubkey);
    assert(s.subrange(33, 65) =~= e.temp_token_account_pubkey);
    assert(s.subrange(65, 97) =~= e.initializer_token_to_receive_account_pubkey);
    assert(s.subrange(97, 105) =~= le_bytes(e.expected_amount));
}

/// Every record of the library's type is well formed, so the round trip holds
/// of each: unpacking what `pack` wrote gives the record back.
pub proof fn lemma_escrow_round_trip(e: Escrow)
    ensures
        escrow_view_wf(e@),
        spec_unpack(spec_pack(e@)) == Some(e@),
{
    lemma_pack_unpack(e@);
}

} // verus!
