//! The allowlist of asset codes and its size.
use vstd::prelude::*;
use super::{Storage, StorageModel, MAX_ASSETS};
use crate::bytes::copy_bytes;
use crate::error::ContractError;

verus! {

/// How many assets the allowlist may hold.
pub open spec fn asset_cap(s: StorageModel) -> u32 {
    match s.max_assets {
        Some(cap) => cap,
        None => MAX_ASSETS,
    }
}

/// The storage after allowing an asset: unchanged if it is allowed already,
/// refused if the allowlist is full.
pub open spec fn add_spec(s: StorageModel, code: Seq<u8>) -> Result<StorageModel, ContractError> {
    if s.assets.contains(code) {
        Ok(s)
    } else if s.asset_count >= asset_cap(s) {
        Err(ContractError::AssetCapReached)
    } else {
        Ok(StorageModel { assets: s.assets.insert(code), asset_count: (s.asset_count + 1) as u32, ..s })
    }
}

/// The storage after removing an asset from the allowlist; unchanged if it
/// is not there.
pub open spec fn remove_spec(s: StorageModel, code: Seq<u8>) -> StorageModel {
    if s.assets.contains(code) {
        StorageModel { assets: s.assets.remove(code), asset_count: (s.asset_count - 1) as u32, ..s }
    } else {
        s
    }
}

/// How many assets are allowed.
pub fn count(st: &Storage) -> (r: u32)
    requires
        st.wf(),
    ensures
        r == st@.asset_count,
        r == st@.assets.len(),
{
    st.asset_count
}

/// Allows an asset.
pub fn add(st: &mut Storage, code: &Vec<u8>) -> (r: Result<(), ContractError>)
    requires
        old(st).wf(),
    ensures
        final(st).wf(),
        match add_spec(old(st)@, code@) {
            Ok(s) => r is Ok && final(st)@ == s,
            Err(e) => r == Err::<(), ContractError>(e) && final(st)@ == old(st)@,
        },
{
    if is_allowed(st, code) {
        return Ok(());
    }
    let cap = match super::max_assets::get(st) {
        Some(c) => c,
        None => MAX_ASSETS,
    };
    if st.asset_count >= cap {
        return Err(ContractError::AssetCapReached);
    }
    st.assets.insert(copy_bytes(code), ());
    st.asset_count = st.asset_count + 1;
    assert(st@.assets =~= old(st)@.assets.insert(code@));
    Ok(())
}

/// Removes an asset from the allowlist.
pub fn remove(st: &mut Storage, code: &Vec<u8>)
    requires
        old(st).wf(),
    ensures
        final(st).wf(),
        final(st)@ == remove_spec(old(st)@, code@),
{
    if !is_allowed(st, code) {
        return;
    }
    let _ = st.assets.remove(code);
    st.asset_count = st.asset_count.saturating_sub(1);
    assert(st@.assets =~= old(st)@.assets.remove(code@));
}

/// Whether the asset is allowed.
pub fn is_allowed(st: &Storage, code: &Vec<u8>) -> (r: bool)
    requires
        st.wf(),
    ensures
        r == st@.assets.contains(code@),
{
    st.assets.contains_key(code)
}

/// Refuses an asset that is not allowed.
pub fn require_allowed(st: &Storage, code: &Vec<u8>) -> (r: Result<(), ContractError>)
    requires
        st.wf(),
    ensures
        r == (if st@.assets.contains(code@) {
            Ok::<(), ContractError>(())
        } else {
            Err(ContractError::AssetNotAllowed)
        }),
{
    if !is_allowed(st, code) {
        return Err(ContractError::AssetNotAllowed);
    }
    Ok(())
}

} // verus!
