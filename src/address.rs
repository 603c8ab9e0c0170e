use vstd::prelude::*;

use crate::state::{Asset, Identity};

verus! {

/// The program-derived address, with its bump seed, that the ledger assigns
/// to `seeds` under `program_id`; `None` where no address can be derived.
pub uninterp spec fn program_address(seeds: Seq<Seq<u8>>, program_id: Seq<u8>) -> Option<
    (Seq<u8>, u8),
>;

/// Relies on `Pubkey::try_find_program_address` (solana-program, through
/// anchor-lang): the derived address and bump depend on the seeds and the
/// program id alone; where the seeds are too many or too long, or no bump
/// works, it returns `None` rather than panicking.
#[verifier::external_body]
fn try_find_program_address(seeds: &Vec<Vec<u8>>, program_id: &Identity) -> (r: Option<
    (Identity, u8),
>)
    ensures
        match r {
            Some((key, bump)) => program_address(seeds.deep_view(), program_id@) == Some(
                (key@, bump),
            ),
            None => program_address(seeds.deep_view(), program_id@) is None,
        },
{
    let parts: Vec<&[u8]> = seeds.iter().map(|s| s.as_slice()).collect();
    let program = anchor_lang::prelude::Pubkey::new_from_array(program_id.bytes);
    anchor_lang::prelude::Pubkey::try_find_program_address(&parts, &program).map(
        |(key, bump)| (Identity { bytes: key.to_bytes() }, bump),
    )
}

/// Where a record is stored: its derived address and the bump seed that
/// signs for it.
#[derive(Clone, Copy, Debug, PartialEq, Eq)]
pub struct StorageKey {
    pub address: Identity,
    pub bump: u8,
}

/// The seed prefix of token delegation records: ASCII `delegation`.
pub open spec fn delegation_prefix() -> Seq<u8> {
    seq![100u8, 101, 108, 101, 103, 97, 116, 105, 111, 110]
}

/// The seed prefix of native coin records: ASCII `native`.
pub open spec fn native_prefix() -> Seq<u8> {
    seq![110u8, 97, 116, 105, 118, 101]
}

/// The seeds of the record that `owner` keeps for `asset`: the asset kind's
/// prefix, then the owner's bytes.
pub open spec fn record_seeds(owner: Identity, asset: Asset) -> Seq<Seq<u8>> {
    let prefix = match asset {
        Asset::Native => native_prefix(),
        Asset::Token(_) => delegation_prefix(),
    };
    seq![prefix, owner@]
}

/// The seeds of the record that `owner` keeps for `asset`.
pub fn record_seeds_of(owner: &Identity, asset: &Asset) -> (r: Vec<Vec<u8>>)
    ensures
        r.deep_view() == record_seeds(*owner, *asset),
{
    let prefix: Vec<u8> = match asset {
        Asset::Native => vec![110u8, 97, 116, 105, 118, 101],
        Asset::Token(_) => vec![100u8, 101, 108, 101, 103, 97, 116, 105, 111, 110],
    };
    proof {
        match asset {
            Asset::Native => assert(prefix@ =~= native_prefix()),
            Asset::Token(_) => assert(prefix@ =~= delegation_prefix()),
        }
    }
    let owner_bytes: Vec<u8> = owner.to_bytes_vec();
    let r = vec![prefix, owner_bytes];
    proof {
        assert(r.deep_view()[0] == r@[0]@);
        assert(r.deep_view()[1] == r@[1]@);
        assert(r.deep_view() =~= record_seeds(*owner, *asset));
    }
    r
}

/// The storage key of the record that `owner` keeps for `asset` under
/// `program_id`, or `None` where the ledger derives no address.
pub fn derive_key(program_id: &Identity, owner: &Identity, asset: &Asset) -> (r: Option<StorageKey>)
    ensures
        match program_address(record_seeds(*owner, *asset), program_id@) {
            Some((address, bump)) => r matches Some(key) && key.address@ == address && key.bump
                == bump,
            None => r is None,
        },
{
    let seeds = record_seeds_of(owner, asset);
    match try_find_program_address(&seeds, program_id) {
        Some((address, bump)) => Some(StorageKey { address, bump }),
        None => None,
    }
}

} // verus!
