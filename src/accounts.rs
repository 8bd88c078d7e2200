//! Matching supplied records against the references that a pool holds.
use vstd::prelude::*;
use crate::error::CompError;
use crate::pubkey::Pubkey;
use crate::states::{Custody, Pool};

verus! {

/// Whether `keys` (the addresses of the supplied records) holds, in order, the
/// pool's custodies, then each custody's oracle, then the pool's markets.
pub open spec fn pool_accounts_match(pool: Pool, custodies: Seq<Custody>, keys: Seq<Pubkey>) -> bool {
    let n = pool.custodies@.len();
    let m = pool.markets@.len();
    &&& forall|i: int| 0 <= i < n ==> #[trigger] keys[i].bytes@ == pool.custodies@[i].bytes@
    &&& forall|i: int| 0 <= i < n ==> #[trigger] keys[n + i].bytes@ == custodies[i].oracle.ext_oracle_account.bytes@
    &&& forall|j: int| 0 <= j < m ==> #[trigger] keys[2 * n + j].bytes@ == pool.markets@[j].bytes@
}

/// Checks the layout of the records supplied for a pool: too few keys or
/// custody records is `MissingAccount`; a key out of place is `AccountMismatch`.
pub open spec fn pool_accounts_spec(pool: Pool, custodies: Seq<Custody>, keys: Seq<Pubkey>) -> Result<(), CompError> {
    let n = pool.custodies@.len();
    let m = pool.markets@.len();
    if keys.len() < 2 * n + m || custodies.len() < n {
        Err(CompError::MissingAccount)
    } else if pool_accounts_match(pool, custodies, keys) {
        Ok(())
    } else {
        Err(CompError::AccountMismatch)
    }
}

/// Checks that `keys`, the addresses of the supplied records, lists the
/// pool's custodies, then their oracles, then the pool's markets.
pub fn check_pool_accounts(pool: &Pool, custodies: &Vec<Custody>, keys: &Vec<Pubkey>) -> (r: Result<(), CompError>)
    ensures
        r == pool_accounts_spec(*pool, custodies@, keys@),
{
    let n = pool.custodies.len();
    let m = pool.markets.len();
    let total = keys.len();
    if n > keys.len() || m > keys.len() - n || n > keys.len() - n - m || custodies.len() < n {
        return Err(CompError::MissingAccount);
    }
    let mut i: usize = 0;
    while i < n
        invariant
            n == pool.custodies@.len(),
            m == pool.markets@.len(),
            2 * n + m <= keys@.len() == total,
            n <= custodies@.len(),
            i <= n,
            forall|k: int| 0 <= k < i ==> #[trigger] keys@[k].bytes@ == pool.custodies@[k].bytes@,
            forall|k: int| 0 <= k < i ==> #[trigger] keys@[n + k].bytes@ == custodies@[k].oracle.ext_oracle_account.bytes@,
        decreases n - i,
    {
        if !keys[i].same_as(&pool.custodies[i]) {
            return Err(CompError::AccountMismatch);
        }
        if !keys[n + i].same_as(&custodies[i].oracle.ext_oracle_account) {
            assert(keys@[n + i as int].bytes@ != custodies@[i as int].oracle.ext_oracle_account.bytes@);
            return Err(CompError::AccountMismatch);
        }
        i = i + 1;
    }
    let mut j: usize = 0;
    while j < m
        invariant
            n == pool.custodies@.len(),
            m == pool.markets@.len(),
            2 * n + m <= keys@.len() == total,
            n <= custodies@.len(),
            j <= m,
            forall|k: int| 0 <= k < n ==> #[trigger] keys@[k].bytes@ == pool.custodies@[k].bytes@,
            forall|k: int| 0 <= k < n ==> #[trigger] keys@[n + k].bytes@ == custodies@[k].oracle.ext_oracle_account.bytes@,
            forall|k: int| 0 <= k < j ==> #[trigger] keys@[2 * n + k].bytes@ == pool.markets@[k].bytes@,
        decreases m - j,
    {
        if !keys[2 * n + j].same_as(&pool.markets[j]) {
            assert(keys@[2 * n + j as int].bytes@ != pool.markets@[j as int].bytes@);
            return Err(CompError::AccountMismatch);
        }
        j = j + 1;
    }
    Ok(())
}

} // verus!
