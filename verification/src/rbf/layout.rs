//! How the fund program's records are stored: the discriminator, then the
//! fields in their declared order.

use vstd::prelude::*;
use vstd::bytes::spec_u64_to_le_bytes;
use crate::codec::{
    get_pubkey, get_u64, lemma_field_bytes, lemma_u64_bytes_are_one_to_one, put_pubkey, put_tag, put_u64,
    starts_with,
};
use crate::pubkey::lemma_pubkey_by_bytes;
use crate::rbf::state::{GlobalConfig, RbfAuth, RBFStatus, RBF};

verus! {

impl GlobalConfig {
    /// The eight bytes that mark a stored registry.
    pub const DISCRIMINATOR: [u8; 8] = [149, 8, 156, 202, 160, 252, 176, 217];

    /// Bytes that the stored registry takes, discriminator included.
    pub const ENCODED_LEN: usize = 8 + 32 + 8 + 1;

    /// Whether `bytes` is the stored form of the registry.
    pub open spec fn encodes_as(self, bytes: Seq<u8>) -> bool {
        &&& bytes.len() == 49
        &&& bytes.subrange(0, 8) == Self::DISCRIMINATOR@
        &&& bytes.subrange(8, 40) == self.admin@
        &&& bytes.subrange(40, 48) == spec_u64_to_le_bytes(self.rbf_nonce)
        &&& bytes[48] == self.bump
    }

    /// The stored form of the registry.
    pub fn encode(&self) -> (bytes: Vec<u8>)
        ensures
            self.encodes_as(bytes@),
    {
        let mut out: Vec<u8> = Vec::new();
        put_tag(&mut out, &Self::DISCRIMINATOR);
        put_pubkey(&mut out, &self.admin);
        put_u64(&mut out, self.rbf_nonce);
        out.push(self.bump);
        proof {
            lemma_u64_bytes_are_one_to_one(self.rbf_nonce, self.rbf_nonce);
            assert(out@.subrange(0, 8) =~= Self::DISCRIMINATOR@);
            assert(out@.subrange(8, 40) =~= self.admin@);
            assert(out@.subrange(40, 48) =~= spec_u64_to_le_bytes(self.rbf_nonce));
        }
        out
    }

    /// The registry that `bytes` starts with. There is none where `bytes` is
    /// too short or starts with another discriminator.
    pub fn decode(bytes: &[u8]) -> (record: Option<GlobalConfig>)
        ensures
            match record {
                Some(found) => bytes@.len() >= 49 && found.encodes_as(bytes@.subrange(0, 49)),
                None => bytes@.len() < 49 || bytes@.subrange(0, 8) != Self::DISCRIMINATOR@,
            },
    {
        if bytes.len() < 49 || !starts_with(bytes, &Self::DISCRIMINATOR) {
            return None;
        }
        let found = GlobalConfig { admin: get_pubkey(bytes, 8), rbf_nonce: get_u64(bytes, 40), bump: bytes[48] };
        proof {
            let stored = bytes@.subrange(0, 49);
            assert(stored.subrange(0, 8) =~= bytes@.subrange(0, 8));
            assert(stored.subrange(8, 40) =~= bytes@.subrange(8, 40));
            assert(stored.subrange(40, 48) =~= bytes@.subrange(40, 48));
        }
        Some(found)
    }
}

/// A registry and its stored form determine each other.
pub proof fn lemma_global_config_layout_is_one_to_one(a: GlobalConfig, b: GlobalConfig, x: Seq<u8>, y: Seq<u8>)
    requires
        a.encodes_as(x),
        b.encodes_as(y),
    ensures
        a == b <==> x == y,
{
    lemma_pubkey_by_bytes(a.admin, b.admin);
    lemma_u64_bytes_are_one_to_one(a.rbf_nonce, b.rbf_nonce);
    if a == b {
        assert forall|i: int| 0 <= i < 49 implies x[i] == y[i] by {
            if i < 8 {
                lemma_field_bytes(x, y, 0, 8, i);
            } else if i < 40 {
                lemma_field_bytes(x, y, 8, 40, i);
            } else if i < 48 {
                lemma_field_bytes(x, y, 40, 48, i);
            }
        }
        assert(x =~= y);
    }
}

impl RbfAuth {
    /// The eight bytes that mark a stored delegation record.
    pub const DISCRIMINATOR: [u8; 8] = [234, 184, 185, 164, 230, 83, 242, 66];

    /// Bytes that the stored record takes, discriminator included.
    pub const ENCODED_LEN: usize = 8 + 32 + 1;

    /// Whether `bytes` is the stored form of the record.
    pub open spec fn encodes_as(self, bytes: Seq<u8>) -> bool {
        &&& bytes.len() == 41
        &&& bytes.subrange(0, 8) == Self::DISCRIMINATOR@
        &&& bytes.subrange(8, 40) == self.creator@
        &&& bytes[40] == self.bump
    }

    /// The stored form of the record.
    pub fn encode(&self) -> (bytes: Vec<u8>)
        ensures
            self.encodes_as(bytes@),
    {
        let mut out: Vec<u8> = Vec::new();
        put_tag(&mut out, &Self::DISCRIMINATOR);
        put_pubkey(&mut out, &self.creator);
        out.push(self.bump);
        proof {
            assert(out@.subrange(0, 8) =~= Self::DISCRIMINATOR@);
            assert(out@.subrange(8, 40) =~= self.creator@);
        }
        out
    }

    /// The delegation record that `bytes` starts with. There is none where
    /// `bytes` is too short or starts with another discriminator.
    pub fn decode(bytes: &[u8]) -> (record: Option<RbfAuth>)
        ensures
            match record {
                Some(found) => bytes@.len() >= 41 && found.encodes_as(bytes@.subrange(0, 41)),
                None => bytes@.len() < 41 || bytes@.subrange(0, 8) != Self::DISCRIMINATOR@,
            },
    {
        if bytes.len() < 41 || !starts_with(bytes, &Self::DISCRIMINATOR) {
            return None;
        }
        let found = RbfAuth { creator: get_pubkey(bytes, 8), bump: bytes[40] };
        proof {
            let stored = bytes@.subrange(0, 41);
            assert(stored.subrange(0, 8) =~= bytes@.subrange(0, 8));
            assert(stored.subrange(8, 40) =~= bytes@.subrange(8, 40));
        }
        Some(found)
    }
}

/// A delegation record and its stored form determine each other.
pub proof fn lemma_rbf_auth_layout_is_one_to_one(a: RbfAuth, b: RbfAuth, x: Seq<u8>, y: Seq<u8>)
    requires
        a.encodes_as(x),
        b.encodes_as(y),
    ensures
        a == b <==> x == y,
{
    lemma_pubkey_by_bytes(a.creator, b.creator);
    if a == b {
        assert forall|i: int| 0 <= i < 41 implies x[i] == y[i] by {
            if i < 8 {
                lemma_field_bytes(x, y, 0, 8, i);
            } else if i < 40 {
                lemma_field_bytes(x, y, 8, 40, i);
            }
        }
        assert(x =~= y);
    }
}

impl RBFStatus {
    /// The byte that stands for the status: 0 for running, 1 for liquidating.
    pub open spec fn spec_to_byte(self) -> u8 {
        match self {
            RBFStatus::Running => 0,
            RBFStatus::Liquidating => 1,
        }
    }

    /// The byte that stands for the status.
    pub fn to_byte(self) -> (byte: u8)
        ensures
            byte == self.spec_to_byte(),
    {
        match self {
            RBFStatus::Running => 0,
            RBFStatus::Liquidating => 1,
        }
    }

    /// The status that `byte` stands for, if any.
    pub fn from_byte(byte: u8) -> (status: Option<RBFStatus>)
        ensures
            match status {
                Some(found) => found.spec_to_byte() == byte,
                None => byte > 1,
            },
    {
        if byte == 0 {
            Some(RBFStatus::Running)
        } else if byte == 1 {
            Some(RBFStatus::Liquidating)
        } else {
            None
        }
    }
}

impl RBF {
    /// The eight bytes that mark a stored fund.
    pub const DISCRIMINATOR: [u8; 8] = [89, 136, 112, 166, 30, 175, 72, 105];

    /// Bytes that a stored fund takes at most, discriminator included. A fund
    /// without a vault takes 32 less.
    pub const ENCODED_LEN: usize = 8 + 283;

    /// Bytes that the stored fund takes: the vault's identity is stored only
    /// where the fund is bound to one.
    pub open spec fn spec_encoded_len(self) -> int {
        if self.vault is Some {
            291
        } else {
            259
        }
    }

    /// Where the fields after the vault start.
    pub open spec fn spec_tail_start(self) -> int {
        if self.vault is Some {
            265
        } else {
            233
        }
    }

    /// Whether `bytes` is the stored form of the fund: the discriminator, the
    /// seven identities (creator, manager, risk oracle, asset mint, share
    /// mint, treasury, recipient), the vault as a byte that is 1 followed by the vault's
    /// identity or 0 followed by nothing, the three amounts, the status and
    /// the bump seed.
    pub open spec fn encodes_as(self, bytes: Seq<u8>) -> bool {
        let tail = self.spec_tail_start();
        &&& bytes.len() == self.spec_encoded_len()
        &&& bytes.subrange(0, 8) == Self::DISCRIMINATOR@
        &&& bytes.subrange(8, 40) == self.creater@
        &&& bytes.subrange(40, 72) == self.manager@
        &&& bytes.subrange(72, 104) == self.drds@
        &&& bytes.subrange(104, 136) == self.asset_mint@
        &&& bytes.subrange(136, 168) == self.rbf_mint@
        &&& bytes.subrange(168, 200) == self.asset_treasury@
        &&& bytes.subrange(200, 232) == self.asset_recipient@
        &&& match self.vault {
            Some(vault) => bytes[232] == 1 && bytes.subrange(233, 265) == vault@,
            None => bytes[232] == 0,
        }
        &&& bytes.subrange(tail, tail + 8) == spec_u64_to_le_bytes(self.total_subscription)
        &&& bytes.subrange(tail + 8, tail + 16) == spec_u64_to_le_bytes(self.total_redemption)
        &&& bytes.subrange(tail + 16, tail + 24) == spec_u64_to_le_bytes(self.liquidation_slippage)
        &&& bytes[tail + 24] == self.status.spec_to_byte()
        &&& bytes[tail + 25] == self.bump
    }

    /// Whether `bytes` starts with a stored fund: it is long enough, starts
    /// with the discriminator, and holds 0 or 1 where the vault byte and the
    /// status byte stand.
    pub open spec fn holds_record(bytes: Seq<u8>) -> bool {
        &&& bytes.len() >= 259
        &&& bytes.subrange(0, 8) == Self::DISCRIMINATOR@
        &&& bytes[232] <= 1
        &&& bytes[232] == 1 ==> bytes.len() >= 291 && bytes[289] <= 1
        &&& bytes[232] == 0 ==> bytes[257] <= 1
    }

    /// The stored form of the fund.
    pub fn encode(&self) -> (bytes: Vec<u8>)
        ensures
            self.encodes_as(bytes@),
    {
        let mut out: Vec<u8> = Vec::new();
        put_tag(&mut out, &Self::DISCRIMINATOR);
        put_pubkey(&mut out, &self.creater);
        put_pubkey(&mut out, &self.manager);
        put_pubkey(&mut out, &self.drds);
        put_pubkey(&mut out, &self.asset_mint);
        put_pubkey(&mut out, &self.rbf_mint);
        put_pubkey(&mut out, &self.asset_treasury);
        put_pubkey(&mut out, &self.asset_recipient);
        let ghost head = out@;
        assert(head.len() == 232);
        match self.vault {
            Some(vault) => {
                out.push(1);
                put_pubkey(&mut out, &vault);
            },
            None => {
                out.push(0);
            },
        }
        let ghost middle = out@;
        assert(middle.len() == self.spec_tail_start());
        put_u64(&mut out, self.total_subscription);
        put_u64(&mut out, self.total_redemption);
        put_u64(&mut out, self.liquidation_slippage);
        out.push(self.status.to_byte());
        out.push(self.bump);
        proof {
            let tail = self.spec_tail_start();
            lemma_u64_bytes_are_one_to_one(self.total_subscription, self.total_subscription);
            lemma_u64_bytes_are_one_to_one(self.total_redemption, self.total_redemption);
            lemma_u64_bytes_are_one_to_one(self.liquidation_slippage, self.liquidation_slippage);
            assert(out@.subrange(0, 8) =~= Self::DISCRIMINATOR@);
            assert(out@.subrange(8, 40) =~= self.creater@);
            assert(out@.subrange(40, 72) =~= self.manager@);
            assert(out@.subrange(72, 104) =~= self.drds@);
            assert(out@.subrange(104, 136) =~= self.asset_mint@);
            assert(out@.subrange(136, 168) =~= self.rbf_mint@);
            assert(out@.subrange(168, 200) =~= self.asset_treasury@);
            assert(out@.subrange(200, 232) =~= self.asset_recipient@);
            if self.vault is Some {
                assert(out@.subrange(233, 265) =~= self.vault->Some_0@);
            }
            assert(out@.subrange(tail, tail + 8) =~= spec_u64_to_le_bytes(self.total_subscription));
            assert(out@.subrange(tail + 8, tail + 16) =~= spec_u64_to_le_bytes(self.total_redemption));
            assert(out@.subrange(tail + 16, tail + 24) =~= spec_u64_to_le_bytes(self.liquidation_slippage));
        }
        out
    }

    /// The fund that `bytes` starts with, if it starts with one.
    pub fn decode(bytes: &[u8]) -> (record: Option<RBF>)
        ensures
            record is Some <==> Self::holds_record(bytes@),
            record matches Some(found) ==> found.spec_encoded_len() <= bytes@.len() && found.encodes_as(
                bytes@.subrange(0, found.spec_encoded_len()),
            ),
    {
        if bytes.len() < 259 || !starts_with(bytes, &Self::DISCRIMINATOR) {
            return None;
        }
        let (vault, tail): (Option<crate::pubkey::Pubkey>, usize) = if bytes[232] == 0 {
            (None, 233)
        } else if bytes[232] == 1 {
            if bytes.len() < 291 {
                return None;
            }
            (Some(get_pubkey(bytes, 233)), 265)
        } else {
            return None;
        };
        let status = match RBFStatus::from_byte(bytes[tail + 24]) {
            Some(status) => status,
            None => {
                return None;
            },
        };
        let found = RBF {
            creater: get_pubkey(bytes, 8),
            manager: get_pubkey(bytes, 40),
            drds: get_pubkey(bytes, 72),
            asset_mint: get_pubkey(bytes, 104),
            rbf_mint: get_pubkey(bytes, 136),
            asset_treasury: get_pubkey(bytes, 168),
            asset_recipient: get_pubkey(bytes, 200),
            vault,
            total_subscription: get_u64(bytes, tail),
            total_redemption: get_u64(bytes, tail + 8),
            liquidation_slippage: get_u64(bytes, tail + 16),
            status,
            bump: bytes[tail + 25],
        };
        proof {
            let stored = bytes@.subrange(0, found.spec_encoded_len());
            let at = tail as int;
            assert(stored.subrange(0, 8) =~= bytes@.subrange(0, 8));
            assert(stored.subrange(8, 40) =~= bytes@.subrange(8, 40));
            assert(stored.subrange(40, 72) =~= bytes@.subrange(40, 72));
            assert(stored.subrange(72, 104) =~= bytes@.subrange(72, 104));
            assert(stored.subrange(104, 136) =~= bytes@.subrange(104, 136));
            assert(stored.subrange(136, 168) =~= bytes@.subrange(136, 168));
            assert(stored.subrange(168, 200) =~= bytes@.subrange(168, 200));
            assert(stored.subrange(200, 232) =~= bytes@.subrange(200, 232));
            if vault is Some {
                assert(stored.subrange(233, 265) =~= bytes@.subrange(233, 265));
            }
            assert(stored.subrange(at, at + 8) =~= bytes@.subrange(at, at + 8));
            assert(stored.subrange(at + 8, at + 16) =~= bytes@.subrange(at + 8, at + 16));
            assert(stored.subrange(at + 16, at + 24) =~= bytes@.subrange(at + 16, at + 24));
        }
        Some(found)
    }
}

/// A fund and its stored form determine each other.
pub proof fn lemma_rbf_layout_is_one_to_one(a: RBF, b: RBF, x: Seq<u8>, y: Seq<u8>)
    requires
        a.encodes_as(x),
        b.encodes_as(y),
    ensures
        a == b <==> x == y,
{
    lemma_pubkey_by_bytes(a.creater, b.creater);
    lemma_pubkey_by_bytes(a.drds, b.drds);
    lemma_pubkey_by_bytes(a.manager, b.manager);
    lemma_pubkey_by_bytes(a.asset_mint, b.asset_mint);
    lemma_pubkey_by_bytes(a.rbf_mint, b.rbf_mint);
    lemma_pubkey_by_bytes(a.asset_treasury, b.asset_treasury);
    lemma_pubkey_by_bytes(a.asset_recipient, b.asset_recipient);
    lemma_u64_bytes_are_one_to_one(a.total_subscription, b.total_subscription);
    lemma_u64_bytes_are_one_to_one(a.total_redemption, b.total_redemption);
    lemma_u64_bytes_are_one_to_one(a.liquidation_slippage, b.liquidation_slippage);
    if a.vault is Some && b.vault is Some {
        lemma_pubkey_by_bytes(a.vault->Some_0, b.vault->Some_0);
    }
    if a == b {
        let tail = a.spec_tail_start();
        assert forall|i: int| 0 <= i < x.len() implies x[i] == y[i] by {
            if i < 8 {
                lemma_field_bytes(x, y, 0, 8, i);
            } else if i < 40 {
                lemma_field_bytes(x, y, 8, 40, i);
            } else if i < 72 {
                lemma_field_bytes(x, y, 40, 72, i);
            } else if i < 104 {
                lemma_field_bytes(x, y, 72, 104, i);
            } else if i < 136 {
                lemma_field_bytes(x, y, 104, 136, i);
            } else if i < 168 {
                lemma_field_bytes(x, y, 136, 168, i);
            } else if i < 200 {
                lemma_field_bytes(x, y, 168, 200, i);
            } else if i < 232 {
                lemma_field_bytes(x, y, 200, 232, i);
            } else if i == 232 {
            } else if i < tail {
                lemma_field_bytes(x, y, 233, 265, i);
            } else if i < tail + 8 {
                lemma_field_bytes(x, y, tail, tail + 8, i);
            } else if i < tail + 16 {
                lemma_field_bytes(x, y, tail + 8, tail + 16, i);
            } else if i < tail + 24 {
                lemma_field_bytes(x, y, tail + 16, tail + 24, i);
            }
        }
        assert(x =~= y);
    }
}

} // verus!
