//! The pools that the monitor may watch.
use vstd::prelude::*;
use crate::error::{ZfsError, ZfsResult};
use crate::text::{eq_lit, to_chars};

verus! {

/// The pools known to the monitor, in order.
pub open spec fn known_pools() -> Seq<Seq<char>> {
    seq!["boot-pool"@, "data"@, "usb-backup"@]
}

/// Finds and checks pools.
pub struct PoolManager<E> {
    command_executor: E,
}

impl<E> PoolManager<E> {
    pub fn new(command_executor: E) -> (r: Self) {
        PoolManager { command_executor }
    }

    /// The command runner.
    pub fn command_executor(&self) -> &E {
        &self.command_executor
    }

    /// The names of the available pools.
    pub fn list_pools(&self) -> (r: ZfsResult<Vec<String>>)
        ensures
            r matches Ok(v) && v@.len() == known_pools().len() && forall|i: int|
                0 <= i < v@.len() ==> #[trigger] v@[i]@ == known_pools()[i],
    {
        let mut v: Vec<String> = Vec::new();
        v.push(String::from_str("boot-pool"));
        v.push(String::from_str("data"));
        v.push(String::from_str("usb-backup"));
        Ok(v)
    }

    /// Whether a pool called `pool_name` is available.
    pub fn validate_pool(&self, pool_name: &str) -> (r: ZfsResult<bool>)
        ensures
            r matches Ok(b) && b == known_pools().contains(pool_name@),
    {
        let pools = self.list_pools();
        let pools = match pools {
            Ok(p) => p,
            Err(e) => {
                return Err(e);
            },
        };
        let name = to_chars(pool_name);
        let mut i: usize = 0;
        while i < pools.len()
            invariant
                pools@.len() == known_pools().len(),
                forall|j: int| 0 <= j < pools@.len() ==> #[trigger] pools@[j]@ == known_pools()[j],
                name@ == pool_name@,
                i <= pools@.len(),
                forall|j: int| 0 <= j < i ==> known_pools()[j] != pool_name@,
            decreases pools.len() - i,
        {
            if eq_lit(&name, pools[i].as_str()) {
                assert(known_pools()[i as int] == pool_name@);
                return Ok(true);
            }
            i = i + 1;
        }
        Ok(false)
    }

    /// The first available pool.
    pub fn get_default_pool(&self) -> (r: ZfsResult<String>)
        ensures
            r matches Ok(s) && s@ == known_pools()[0],
    {
        let pools = self.list_pools();
        match pools {
            Ok(p) => {
                if p.len() > 0 {
                    Ok(p[0].clone())
                } else {
                    Err(ZfsError::subsystem_unavailable("pool", "No pools found"))
                }
            },
            Err(e) => Err(e),
        }
    }
}

} // verus!
