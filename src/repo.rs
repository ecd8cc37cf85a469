use vstd::prelude::*;

verus! {

/// A request-scoped product repository over a shared connection-pool handle `P`.
/// It owns no connection; each data operation borrows one from the pool.
#[derive(Clone, Debug)]
pub struct ProductRepository<P> {
    pub pool: P,
}

impl<P> ProductRepository<P> {
    pub fn new(pool: P) -> (r: ProductRepository<P>)
        ensures
            r.pool == pool,
    {
        ProductRepository { pool }
    }
}

} // verus!
