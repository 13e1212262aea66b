//! How the vault program's records are stored: the discriminator, then the
//! fields in their declared order.

use vstd::prelude::*;
use vstd::bytes::spec_u64_to_le_bytes;
use crate::codec::{
    get_i64, get_pubkey, get_u64, lemma_field_bytes, lemma_i64_bytes_are_one_to_one,
    lemma_u64_bytes_are_one_to_one, put_i64, put_pubkey, put_tag, put_u64, spec_i64_to_le_bytes, starts_with,
};
use crate::pubkey::lemma_pubkey_by_bytes;
use crate::vault::state::{Vault, VaultAuth};

verus! {

impl VaultAuth {
    /// The eight bytes that mark a stored vault delegation record.
    pub const DISCRIMINATOR: [u8; 8] = [125, 125, 203, 158, 237, 68, 106, 159];

    /// Bytes that the stored record takes, discriminator included.
    pub const ENCODED_LEN: usize = 8 + 32 + 1;

    /// Whether `bytes` is the stored form of the record.
    pub open spec fn encodes_as(self, bytes: Seq<u8>) -> bool {
        &&& bytes.len() == 41
        &&& bytes.subrange(0, 8) == Self::DISCRIMINATOR@
        &&& bytes.subrange(8, 40) == self.creator@
        &&& bytes[40] == self.bump
    }

    /// The stored form of the record.
    pub fn encode(&self) -> (bytes: Vec<u8>)
        ensures
            self.encodes_as(bytes@),
    {
        let mut out: Vec<u8> = Vec::new();
        put_tag(&mut out, &Self::DISCRIMINATOR);
        put_pubkey(&mut out, &self.creator);
        out.push(self.bump);
        proof {
            assert(out@.subrange(0, 8) =~= Self::DISCRIMINATOR@);
            assert(out@.subrange(8, 40) =~= self.creator@);
        }
        out
    }

    /// The vault delegation record that `bytes` starts with. There is none
    /// where `bytes` is too short or starts with another discriminator.
    pub fn decode(bytes: &[u8]) -> (record: Option<VaultAuth>)
        ensures
            match record {
                Some(found) => bytes@.len() >= 41 && found.encodes_as(bytes@.subrange(0, 41)),
                None => bytes@.len() < 41 || bytes@.subrange(0, 8) != Self::DISCRIMINATOR@,
            },
    {
        if bytes.len() < 41 || !starts_with(bytes, &Self::DISCRIMINATOR) {
            return None;
        }
        let found = VaultAuth { creator: get_pubkey(bytes, 8), bump: bytes[40] };
        proof {
            let stored = bytes@.subrange(0, 41);
            assert(stored.subrange(0, 8) =~= bytes@.subrange(0, 8));
            assert(stored.subrange(8, 40) =~= bytes@.subrange(8, 40));
        }
        Some(found)
    }
}

/// A vault delegation record and its stored form determine each other.
pub proof fn lemma_vault_auth_layout_is_one_to_one(a: VaultAuth, b: VaultAuth, x: Seq<u8>, y: Seq<u8>)
    requires
        a.encodes_as(x),
        b.encodes_as(y),
    ensures
        a == b <==> x == y,
{
    lemma_pubkey_by_bytes(a.creator, b.creator);
    if a == b {
        assert forall|i: int| 0 <= i < 41 implies x[i] == y[i] by {
            if i < 8 {
                lemma_field_bytes(x, y, 0, 8, i);
            } else if i < 40 {
                lemma_field_bytes(x, y, 8, 40, i);
            }
        }
        assert(x =~= y);
    }
}

impl Vault {
    /// The eight bytes that mark a stored vault.
    pub const DISCRIMINATOR: [u8; 8] = [211, 8, 232, 43, 2, 152, 117, 119];

    /// Bytes that the stored vault takes, discriminator included.
    pub const ENCODED_LEN: usize = 8 + 304;

    /// Whether `bytes` is the stored form of the vault: the discriminator, the
    /// eight identities, the two times and the four amounts.
    pub open spec fn encodes_as(self, bytes: Seq<u8>) -> bool {
        &&& bytes.len() == 312
        &&& bytes.subrange(0, 8) == Self::DISCRIMINATOR@
        &&& bytes.subrange(8, 40) == self.creater@
        &&& bytes.subrange(40, 72) == self.manager@
        &&& bytes.subrange(72, 104) == self.dexBot@
        &&& bytes.subrange(104, 136) == self.vault_mint@
        &&& bytes.subrange(136, 168) == self.asset_mint@
        &&& bytes.subrange(168, 200) == self.vault_treasury@
        &&& bytes.subrange(200, 232) == self.asset_treasury@
        &&& bytes.subrange(232, 264) == self.rbf@
        &&& bytes.subrange(264, 272) == spec_i64_to_le_bytes(self.fund_start_time)
        &&& bytes.subrange(272, 280) == spec_i64_to_le_bytes(self.fund_end_time)
        &&& bytes.subrange(280, 288) == spec_u64_to_le_bytes(self.fund_amount)
        &&& bytes.subrange(288, 296) == spec_u64_to_le_bytes(self.rbf_fund_amount)
        &&& bytes.subrange(296, 304) == spec_u64_to_le_bytes(self.dex_fund_amount)
        &&& bytes.subrange(304, 312) == spec_u64_to_le_bytes(self.min_deposit_amount)
    }

    /// The stored form of the vault.
    pub fn encode(&self) -> (bytes: Vec<u8>)
        ensures
            self.encodes_as(bytes@),
    {
        let mut out: Vec<u8> = Vec::new();
        put_tag(&mut out, &Self::DISCRIMINATOR);
        put_pubkey(&mut out, &self.creater);
        put_pubkey(&mut out, &self.manager);
        put_pubkey(&mut out, &self.dexBot);
        put_pubkey(&mut out, &self.vault_mint);
        put_pubkey(&mut out, &self.asset_mint);
        put_pubkey(&mut out, &self.vault_treasury);
        put_pubkey(&mut out, &self.asset_treasury);
        put_pubkey(&mut out, &self.rbf);
        assert(out@.len() == 264);
        put_i64(&mut out, self.fund_start_time);
        put_i64(&mut out, self.fund_end_time);
        put_u64(&mut out, self.fund_amount);
        put_u64(&mut out, self.rbf_fund_amount);
        put_u64(&mut out, self.dex_fund_amount);
        put_u64(&mut out, self.min_deposit_amount);
        proof {
            lemma_i64_bytes_are_one_to_one(self.fund_start_time, self.fund_start_time);
            lemma_i64_bytes_are_one_to_one(self.fund_end_time, self.fund_end_time);
            lemma_u64_bytes_are_one_to_one(self.fund_amount, self.fund_amount);
            lemma_u64_bytes_are_one_to_one(self.rbf_fund_amount, self.rbf_fund_amount);
            lemma_u64_bytes_are_one_to_one(self.dex_fund_amount, self.dex_fund_amount);
            lemma_u64_bytes_are_one_to_one(self.min_deposit_amount, self.min_deposit_amount);
            assert(out@.subrange(0, 8) =~= Self::DISCRIMINATOR@);
            assert(out@.subrange(8, 40) =~= self.creater@);
            assert(out@.subrange(40, 72) =~= self.manager@);
            assert(out@.subrange(72, 104) =~= self.dexBot@);
            assert(out@.subrange(104, 136) =~= self.vault_mint@);
            assert(out@.subrange(136, 168) =~= self.asset_mint@);
            assert(out@.subrange(168, 200) =~= self.vault_treasury@);
            assert(out@.subrange(200, 232) =~= self.asset_treasury@);
            assert(out@.subrange(232, 264) =~= self.rbf@);
            assert(out@.subrange(264, 272) =~= spec_i64_to_le_bytes(self.fund_start_time));
            assert(out@.subrange(272, 280) =~= spec_i64_to_le_bytes(self.fund_end_time));
            assert(out@.subrange(280, 288) =~= spec_u64_to_le_bytes(self.fund_amount));
            assert(out@.subrange(288, 296) =~= spec_u64_to_le_bytes(self.rbf_fund_amount));
            assert(out@.subrange(296, 304) =~= spec_u64_to_le_bytes(self.dex_fund_amount));
            assert(out@.subrange(304, 312) =~= spec_u64_to_le_bytes(self.min_deposit_amount));
        }
        out
    }

    /// The vault that `bytes` starts with. There is none where `bytes` is too
    /// short or starts with another discriminator.
    pub fn decode(bytes: &[u8]) -> (record: Option<Vault>)
        ensures
            match record {
                Some(found) => bytes@.len() >= 312 && found.encodes_as(bytes@.subrange(0, 312)),
                None => bytes@.len() < 312 || bytes@.subrange(0, 8) != Self::DISCRIMINATOR@,
            },
    {
        if bytes.len() < 312 || !starts_with(bytes, &Self::DISCRIMINATOR) {
            return None;
        }
        let found = Vault {
            creater: get_pubkey(bytes, 8),
            manager: get_pubkey(bytes, 40),
            dexBot: get_pubkey(bytes, 72),
            vault_mint: get_pubkey(bytes, 104),
            asset_mint: get_pubkey(bytes, 136),
            vault_treasury: get_pubkey(bytes, 168),
            asset_treasury: get_pubkey(bytes, 200),
            rbf: get_pubkey(bytes, 232),
            fund_start_time: get_i64(bytes, 264),
            fund_end_time: get_i64(bytes, 272),
            fund_amount: get_u64(bytes, 280),
            rbf_fund_amount: get_u64(bytes, 288),
            dex_fund_amount: get_u64(bytes, 296),
            min_deposit_amount: get_u64(bytes, 304),
        };
        proof {
            let stored = bytes@.subrange(0, 312);
            assert(stored.subrange(0, 8) =~= bytes@.subrange(0, 8));
            assert(stored.subrange(8, 40) =~= bytes@.subrange(8, 40));
            assert(stored.subrange(40, 72) =~= bytes@.subrange(40, 72));
            assert(stored.subrange(72, 104) =~= bytes@.subrange(72, 104));
            assert(stored.subrange(104, 136) =~= bytes@.subrange(104, 136));
            assert(stored.subrange(136, 168) =~= bytes@.subrange(136, 168));
            assert(stored.subrange(168, 200) =~= bytes@.subrange(168, 200));
            assert(stored.subrange(200, 232) =~= bytes@.subrange(200, 232));
            assert(stored.subrange(232, 264) =~= bytes@.subrange(232, 264));
            assert(stored.subrange(264, 272) =~= bytes@.subrange(264, 272));
            assert(stored.subrange(272, 280) =~= bytes@.subrange(272, 280));
            assert(stored.subrange(280, 288) =~= bytes@.subrange(280, 288));
            assert(stored.subrange(288, 296) =~= bytes@.subrange(288, 296));
            assert(stored.subrange(296, 304) =~= bytes@.subrange(296, 304));
            assert(stored.subrange(304, 312) =~= bytes@.subrange(304, 312));
        }
        Some(found)
    }
}

/// A vault and its stored form determine each other.
pub proof fn lemma_vault_layout_is_one_to_one(a: Vault, b: Vault, x: Seq<u8>, y: Seq<u8>)
    requires
        a.encodes_as(x),
        b.encodes_as(y),
    ensures
        a == b <==> x == y,
{
    lemma_pubkey_by_bytes(a.creater, b.creater);
    lemma_pubkey_by_bytes(a.manager, b.manager);
    lemma_pubkey_by_bytes(a.dexBot, b.dexBot);
    lemma_pubkey_by_bytes(a.vault_mint, b.vault_mint);
    lemma_pubkey_by_bytes(a.asset_mint, b.asset_mint);
    lemma_pubkey_by_bytes(a.vault_treasury, b.vault_treasury);
    lemma_pubkey_by_bytes(a.asset_treasury, b.asset_treasury);
    lemma_pubkey_by_bytes(a.rbf, b.rbf);
    lemma_i64_bytes_are_one_to_one(a.fund_start_time, b.fund_start_time);
    lemma_i64_bytes_are_one_to_one(a.fund_end_time, b.fund_end_time);
    lemma_u64_bytes_are_one_to_one(a.fund_amount, b.fund_amount);
    lemma_u64_bytes_are_one_to_one(a.rbf_fund_amount, b.rbf_fund_amount);
    lemma_u64_bytes_are_one_to_one(a.dex_fund_amount, b.dex_fund_amount);
    lemma_u64_bytes_are_one_to_one(a.min_deposit_amount, b.min_deposit_amount);
    if a == b {
        assert forall|i: int| 0 <= i < 312 implies x[i] == y[i] by {
            if i < 8 {
                lemma_field_bytes(x, y, 0, 8, i);
            } else if i < 264 {
                let from = 8 + 32 * ((i - 8) / 32);
                lemma_field_bytes(x, y, from, from + 32, i);
            } else {
                let from = 264 + 8 * ((i - 264) / 8);
                lemma_field_bytes(x, y, from, from + 8, i);
            }
        }
        assert(x =~= y);
    }
}

} // verus!
