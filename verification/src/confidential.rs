//! Encrypted velocity counters for confidential-mode cards.
//!
//! In confidential mode the engine never sees a plaintext amount: the
//! caller's proof blob carries a fixed-size, additively-homomorphic
//! encryption of the amount, and each window's encrypted total is updated by
//! the scheme's combine operation instead of plain addition. The elliptic-
//! curve mathematics of the scheme and of range-proof verification are the
//! proof system's own concern; this module captures exactly the contract the
//! engine relies on — a 64-byte ciphertext is eight 64-bit little-endian
//! limbs, and combining two ciphertexts combines them limb by limb, so that
//! any linear reading of the limbs sees the sum of the encrypted amounts. A
//! limb that would overflow is a hard error, never silent wraparound.

use vstd::prelude::*;

use crate::card::{
    spec_mcc_checks, spec_merchant_checks, spec_status_check, CardConfig, CardConfigView,
    CardStatus,
};
use crate::errors::HookError;
use crate::global::{GlobalConfig, GlobalConfigView};
use crate::lists::{contains_mcc, contains_merchant};

verus! {

/// Bytes in the wire form of one ciphertext.
pub const CIPHERTEXT_BYTES: usize = 64;

/// A fixed-size additively-homomorphic ciphertext: eight 64-bit limbs.
#[derive(Clone, Copy, PartialEq, Eq, Debug)]
pub struct Ciphertext {
    pub limbs: [u64; 8],
}

impl View for Ciphertext {
    type V = Seq<u64>;

    open spec fn view(&self) -> Seq<u64> {
        self.limbs@
    }
}

/// Whether two ciphertexts can be combined: every limb-wise sum fits.
pub open spec fn spec_cipher_ok(a: Seq<u64>, b: Seq<u64>) -> bool {
    &&& a.len() == 8
    &&& b.len() == 8
    &&& forall|i: int| 0 <= i < 8 ==> a[i] + b[i] <= u64::MAX
}

/// The limb-wise combination of two ciphertexts.
pub open spec fn spec_cipher_add(a: Seq<u64>, b: Seq<u64>) -> Seq<u64> {
    Seq::new(8, |i: int| (a[i] + b[i]) as u64)
}

/// The little-endian 64-bit value at offset `off` of a byte sequence.
pub open spec fn spec_le_u64_at(bytes: Seq<u8>, off: int) -> int {
    bytes[off] + 0x100 * (bytes[off + 1] + 0x100 * (bytes[off + 2] + 0x100 * (bytes[off + 3]
        + 0x100 * (bytes[off + 4] + 0x100 * (bytes[off + 5] + 0x100 * (bytes[off + 6] + 0x100
        * bytes[off + 7]))))))
}

/// Read the little-endian 64-bit value at offset `off`.
fn le_u64_at(bytes: &Vec<u8>, off: usize) -> (v: u64)
    requires
        off + 8 <= bytes@.len(),
    ensures
        v == spec_le_u64_at(bytes@, off as int),
{
    let n: usize = bytes.len();
    assert(off + 8 <= n);
    let mut v: u64 = bytes[off + 7] as u64;
    v = v * 256 + (bytes[off + 6] as u64);
    v = v * 256 + (bytes[off + 5] as u64);
    v = v * 256 + (bytes[off + 4] as u64);
    v = v * 256 + (bytes[off + 3] as u64);
    v = v * 256 + (bytes[off + 2] as u64);
    v = v * 256 + (bytes[off + 1] as u64);
    v = v * 256 + (bytes[off] as u64);
    v
}

impl Ciphertext {
    /// Parse a ciphertext from the leading 64 bytes of a blob. A blob too
    /// short to hold one is rejected as malformed.
    pub fn from_prefix(data: &Vec<u8>) -> (r: Result<Ciphertext, HookError>)
        ensures
            match r {
                Ok(c) => data@.len() >= CIPHERTEXT_BYTES && forall|j: int|
                    0 <= j < 8 ==> c@[j] == spec_le_u64_at(data@, 8 * j),
                Err(e) => data@.len() < CIPHERTEXT_BYTES && e == HookError::InvalidProofData,
            },
    {
        if data.len() < CIPHERTEXT_BYTES {
            return Err(HookError::InvalidProofData);
        }
        let mut limbs: [u64; 8] = [0; 8];
        let mut j: usize = 0;
        while j < 8
            invariant
                j <= 8,
                data@.len() >= CIPHERTEXT_BYTES,
                forall|k: int| 0 <= k < j ==> limbs@[k] == spec_le_u64_at(data@, 8 * k),
            decreases 8 - j,
        {
            let v = le_u64_at(data, 8 * j);
            limbs[j] = v;
            j += 1;
        }
        Ok(Ciphertext { limbs })
    }

    /// Combine two ciphertexts limb by limb. Fails with
    /// `EncryptedCounterOverflow` when any limb-wise sum would not fit.
    pub fn homomorphic_add(&self, other: &Ciphertext) -> (r: Result<Ciphertext, HookError>)
        ensures
            match r {
                Ok(c) => spec_cipher_ok(self@, other@) && c@ == spec_cipher_add(self@, other@),
                Err(e) => !spec_cipher_ok(self@, other@) && e
                    == HookError::EncryptedCounterOverflow,
            },
    {
        let mut limbs: [u64; 8] = [0; 8];
        let mut i: usize = 0;
        while i < 8
            invariant
                i <= 8,
                forall|k: int| 0 <= k < i ==> self.limbs@[k] + other.limbs@[k] <= u64::MAX,
                forall|k: int|
                    0 <= k < i ==> limbs@[k] == (self.limbs@[k] + other.limbs@[k]) as u64,
            decreases 8 - i,
        {
            match self.limbs[i].checked_add(other.limbs[i]) {
                Some(v) => {
                    limbs[i] = v;
                },
                None => {
                    return Err(HookError::EncryptedCounterOverflow);
                },
            }
            i += 1;
        }
        let c = Ciphertext { limbs };
        assert(c@ =~= spec_cipher_add(self@, other@));
        Ok(c)
    }
}

// ============================================================================
// Laws
// ============================================================================

/// Law: the ciphertext combination is commutative — combining in either
/// order is defined on exactly the same pairs and produces the very same
/// ciphertext.
pub proof fn lemma_cipher_add_commutes(a: Seq<u64>, b: Seq<u64>)
    ensures
        spec_cipher_ok(a, b) == spec_cipher_ok(b, a),
        spec_cipher_ok(a, b) ==> spec_cipher_add(a, b) == spec_cipher_add(b, a),
{
    if spec_cipher_ok(a, b) {
        assert(spec_cipher_add(a, b) =~= spec_cipher_add(b, a));
    }
}

/// Law: the ciphertext combination is associative — when both groupings are
/// defined they produce the very same ciphertext.
pub proof fn lemma_cipher_add_associative(a: Seq<u64>, b: Seq<u64>, c: Seq<u64>)
    requires
        spec_cipher_ok(a, b),
        spec_cipher_ok(spec_cipher_add(a, b), c),
    ensures
        spec_cipher_ok(b, c),
        spec_cipher_ok(a, spec_cipher_add(b, c)),
        spec_cipher_add(spec_cipher_add(a, b), c) == spec_cipher_add(a, spec_cipher_add(b, c)),
{
    assert(spec_cipher_add(spec_cipher_add(a, b), c) =~= spec_cipher_add(
        a,
        spec_cipher_add(b, c),
    ));
}

/// Law: recording two encrypted amounts into a running total is
/// order-independent — both orders are defined on exactly the same inputs
/// and yield the very same encrypted total.
pub proof fn lemma_cipher_record_order_independent(total: Seq<u64>, a: Seq<u64>, b: Seq<u64>)
    requires
        spec_cipher_ok(total, a),
        spec_cipher_ok(spec_cipher_add(total, a), b),
    ensures
        spec_cipher_ok(total, b),
        spec_cipher_ok(spec_cipher_add(total, b), a),
        spec_cipher_add(spec_cipher_add(total, a), b) == spec_cipher_add(
            spec_cipher_add(total, b),
            a,
        ),
{
    assert(spec_cipher_add(spec_cipher_add(total, a), b) =~= spec_cipher_add(
        spec_cipher_add(total, b),
        a,
    ));
}

/// The running combination of a whole sequence of ciphertexts into an
/// initial total, `None` as soon as any step would overflow a limb.
pub open spec fn spec_cipher_add_all(init: Seq<u64>, cs: Seq<Seq<u64>>) -> Option<Seq<u64>>
    decreases cs.len(),
{
    if cs.len() == 0 {
        Some(init)
    } else if spec_cipher_ok(init, cs[0]) {
        spec_cipher_add_all(spec_cipher_add(init, cs[0]), cs.skip(1))
    } else {
        None
    }
}

/// The sum of limb `k` over a sequence of ciphertexts.
pub open spec fn spec_limb_sum(cs: Seq<Seq<u64>>, k: int) -> int
    decreases cs.len(),
{
    if cs.len() == 0 {
        0
    } else {
        cs[0][k] + spec_limb_sum(cs.skip(1), k)
    }
}

/// The ciphertext carried in the leading bytes of a proof blob.
pub open spec fn spec_parsed_cipher(data: Seq<u8>) -> Seq<u64> {
    Seq::new(8, |j: int| spec_le_u64_at(data, 8 * j) as u64)
}

/// The view of an optional encrypted total.
pub open spec fn spec_total_view(t: Option<Ciphertext>) -> Option<Seq<u64>> {
    match t {
        None => None,
        Some(c) => Some(c@),
    }
}

/// Whether recording the encrypted amount `c` into the window total `t` is
/// free of limb overflow. An absent total is simply initialized, which
/// cannot overflow.
pub open spec fn spec_updated_total_ok(t: Option<Ciphertext>, c: Seq<u64>) -> bool {
    match t {
        None => true,
        Some(tc) => spec_cipher_ok(tc@, c),
    }
}

/// The window total after recording the encrypted amount `c`: combined
/// with a present total, or the amount itself for an absent one.
pub open spec fn spec_updated_total(t: Option<Ciphertext>, c: Seq<u64>) -> Seq<u64> {
    match t {
        None => c,
        Some(tc) => spec_cipher_add(tc@, c),
    }
}

/// Law: the combination is additively homomorphic. After combining any
/// number of ciphertexts into a total, every limb of the result carries the
/// initial limb plus the sum of that limb over all operands — so any
/// decryption that reads the encrypted amount linearly from the limbs sees
/// exactly the sum of the individually encrypted amounts.
pub proof fn lemma_cipher_add_all_sums(init: Seq<u64>, cs: Seq<Seq<u64>>, k: int)
    requires
        0 <= k < 8,
        spec_cipher_add_all(init, cs) is Some,
    ensures
        spec_cipher_add_all(init, cs)->Some_0[k] == init[k] + spec_limb_sum(cs, k),
    decreases cs.len(),
{
    if cs.len() > 0 {
        lemma_cipher_add_all_sums(spec_cipher_add(init, cs[0]), cs.skip(1), k);
    }
}

// ============================================================================
// Confidential transfer path
// ============================================================================

/// Structural validation of a proof blob: it must at least carry one
/// ciphertext. The cryptographic obligations — that the blob's range proof
/// shows the encrypted amount positive and within the remaining daily
/// headroom against the card's current encrypted total and current limit
/// (freshness binding), so that a stale proof is rejected — belong to the
/// external proof system that produces and checks the blob, and are not
/// re-derived here.
pub fn verify_velocity_range_proof(proof_data: &Vec<u8>, _card_config: &CardConfig) -> (r: Result<
    (),
    HookError,
>)
    ensures
        r == if proof_data@.len() >= CIPHERTEXT_BYTES {
            Ok::<(), HookError>(())
        } else {
            Err::<(), HookError>(HookError::InvalidProofData)
        },
{
    if proof_data.len() < CIPHERTEXT_BYTES {
        return Err(HookError::InvalidProofData);
    }
    Ok(())
}

/// Record one encrypted amount into all three encrypted window totals: a
/// present total is combined with the amount, an absent one is initialized
/// to it. All three combinations are computed before any is stored, so an
/// overflow leaves the card exactly as it was.
pub fn update_encrypted_counters(card: &mut CardConfig, proof_data: &Vec<u8>) -> (r: Result<
    (),
    HookError,
>)
    ensures
        match r {
            Ok(()) => {
                &&& proof_data@.len() >= CIPHERTEXT_BYTES
                &&& spec_updated_total_ok(
                    old(card)@.encrypted_daily_total,
                    spec_parsed_cipher(proof_data@),
                )
                &&& spec_updated_total_ok(
                    old(card)@.encrypted_weekly_total,
                    spec_parsed_cipher(proof_data@),
                )
                &&& spec_updated_total_ok(
                    old(card)@.encrypted_monthly_total,
                    spec_parsed_cipher(proof_data@),
                )
                &&& spec_total_view(final(card)@.encrypted_daily_total) == Some(
                    spec_updated_total(
                        old(card)@.encrypted_daily_total,
                        spec_parsed_cipher(proof_data@),
                    ),
                )
                &&& spec_total_view(final(card)@.encrypted_weekly_total) == Some(
                    spec_updated_total(
                        old(card)@.encrypted_weekly_total,
                        spec_parsed_cipher(proof_data@),
                    ),
                )
                &&& spec_total_view(final(card)@.encrypted_monthly_total) == Some(
                    spec_updated_total(
                        old(card)@.encrypted_monthly_total,
                        spec_parsed_cipher(proof_data@),
                    ),
                )
                &&& final(card)@ == (CardConfigView {
                    encrypted_daily_total: final(card)@.encrypted_daily_total,
                    encrypted_weekly_total: final(card)@.encrypted_weekly_total,
                    encrypted_monthly_total: final(card)@.encrypted_monthly_total,
                    ..old(card)@
                })
            },
            Err(e) => {
                &&& *final(card) == *old(card)
                &&& if proof_data@.len() < CIPHERTEXT_BYTES {
                    e == HookError::InvalidProofData
                } else {
                    e == HookError::EncryptedCounterOverflow && !(spec_updated_total_ok(
                        old(card)@.encrypted_daily_total,
                        spec_parsed_cipher(proof_data@),
                    ) && spec_updated_total_ok(
                        old(card)@.encrypted_weekly_total,
                        spec_parsed_cipher(proof_data@),
                    ) && spec_updated_total_ok(
                        old(card)@.encrypted_monthly_total,
                        spec_parsed_cipher(proof_data@),
                    ))
                }
            },
        },
{
    let ct = match Ciphertext::from_prefix(proof_data) {
        Err(e) => {
            return Err(e);
        },
        Ok(c) => c,
    };
    assert(ct@ =~= spec_parsed_cipher(proof_data@));
    let new_daily = match &card.encrypted_daily_total {
        None => ct,
        Some(t) => match t.homomorphic_add(&ct) {
            Err(e) => {
                return Err(e);
            },
            Ok(c) => c,
        },
    };
    let new_weekly = match &card.encrypted_weekly_total {
        None => ct,
        Some(t) => match t.homomorphic_add(&ct) {
            Err(e) => {
                return Err(e);
            },
            Ok(c) => c,
        },
    };
    let new_monthly = match &card.encrypted_monthly_total {
        None => ct,
        Some(t) => match t.homomorphic_add(&ct) {
            Err(e) => {
                return Err(e);
            },
            Ok(c) => c,
        },
    };
    card.encrypted_daily_total = Some(new_daily);
    card.encrypted_weekly_total = Some(new_weekly);
    card.encrypted_monthly_total = Some(new_monthly);
    Ok(())
}

/// The confidential-path decision: the global pause first, then the
/// confidential-mode gate, then the amount-independent card checks exactly
/// as on the plaintext path, then the structural proof check, and last the
/// encrypted-counter update. The first failing check names the error.
pub open spec fn spec_confidential_authorize(
    g: GlobalConfigView,
    v: CardConfigView,
    data: Seq<u8>,
    merchant_id: Option<[u8; 32]>,
    mcc_code: Option<u16>,
) -> Result<(), HookError> {
    if g.is_paused {
        Err(HookError::GloballyPaused)
    } else if !v.confidential_mode {
        Err(HookError::ConfidentialModeNotEnabled)
    } else if v.status != CardStatus::Active {
        spec_status_check(v.status)
    } else if v.freeze_info is Some {
        Err(HookError::CardFrozen)
    } else if spec_merchant_checks(v, merchant_id) is Err {
        spec_merchant_checks(v, merchant_id)
    } else if spec_mcc_checks(v, mcc_code) is Err {
        spec_mcc_checks(v, mcc_code)
    } else if data.len() < CIPHERTEXT_BYTES {
        Err(HookError::InvalidProofData)
    } else if !(spec_updated_total_ok(v.encrypted_daily_total, spec_parsed_cipher(data))
        && spec_updated_total_ok(v.encrypted_weekly_total, spec_parsed_cipher(data))
        && spec_updated_total_ok(v.encrypted_monthly_total, spec_parsed_cipher(data))) {
        Err(HookError::EncryptedCounterOverflow)
    } else {
        Ok(())
    }
}

/// Validate a confidential (encrypted-amount) transfer and record it. In
/// confidential mode the caller supplies an opaque proof blob instead of a
/// plaintext amount; the amount-independent checks run exactly as on the
/// plaintext path, and on approval each encrypted window total is updated
/// by the homomorphic combination with the blob's ciphertext. A denial
/// leaves the card untouched.
pub fn confidential_transfer_hook(
    global: &GlobalConfig,
    card: &mut CardConfig,
    proof_data: &Vec<u8>,
    merchant_id: Option<[u8; 32]>,
    mcc_code: Option<u16>,
) -> (r: Result<(), HookError>)
    ensures
        r == spec_confidential_authorize(global@, old(card)@, proof_data@, merchant_id, mcc_code),
        match r {
            Ok(()) => {
                &&& spec_total_view(final(card)@.encrypted_daily_total) == Some(
                    spec_updated_total(
                        old(card)@.encrypted_daily_total,
                        spec_parsed_cipher(proof_data@),
                    ),
                )
                &&& spec_total_view(final(card)@.encrypted_weekly_total) == Some(
                    spec_updated_total(
                        old(card)@.encrypted_weekly_total,
                        spec_parsed_cipher(proof_data@),
                    ),
                )
                &&& spec_total_view(final(card)@.encrypted_monthly_total) == Some(
                    spec_updated_total(
                        old(card)@.encrypted_monthly_total,
                        spec_parsed_cipher(proof_data@),
                    ),
                )
                &&& final(card)@ == (CardConfigView {
                    encrypted_daily_total: final(card)@.encrypted_daily_total,
                    encrypted_weekly_total: final(card)@.encrypted_weekly_total,
                    encrypted_monthly_total: final(card)@.encrypted_monthly_total,
                    ..old(card)@
                })
            },
            Err(_) => *final(card) == *old(card),
        },
{
    if global.is_paused {
        return Err(HookError::GloballyPaused);
    }
    if !card.confidential_mode {
        return Err(HookError::ConfidentialModeNotEnabled);
    }
    match card.status {
        CardStatus::Active => {},
        CardStatus::Pending => {
            return Err(HookError::CardPending);
        },
        CardStatus::Paused => {
            return Err(HookError::CardNotActive);
        },
        CardStatus::Frozen => {
            return Err(HookError::CardFrozen);
        },
        CardStatus::Terminated => {
            return Err(HookError::CardTerminated);
        },
    }
    if card.freeze_info.is_some() {
        return Err(HookError::CardFrozen);
    }
    if let Some(m) = merchant_id {
        if card.merchant_whitelist_enabled && !contains_merchant(&card.merchant_whitelist, &m) {
            return Err(HookError::MerchantNotWhitelisted);
        }
        if contains_merchant(&card.merchant_blocklist, &m) {
            return Err(HookError::MerchantBlocked);
        }
    }
    if let Some(c) = mcc_code {
        if card.mcc_whitelist_enabled && !contains_mcc(&card.mcc_whitelist, c) {
            return Err(HookError::MccNotWhitelisted);
        }
        if contains_mcc(&card.mcc_blocklist, c) {
            return Err(HookError::MccBlocked);
        }
    }
    match verify_velocity_range_proof(proof_data, card) {
        Err(e) => Err(e),
        Ok(()) => {
            let r = update_encrypted_counters(card, proof_data);
            proof {
                // The solver needs the unit payload of a successful update
                // spelled out to equate the result with the decision.
                if r is Ok {
                    assert(r->Ok_0 == ());
                }
            }
            r
        },
    }
}

} // verus!
