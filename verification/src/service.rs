use vstd::prelude::*;
use crate::product::{Product, product_bag};
use crate::store::{ProductStore, StoreError};

verus! {

/// Every way a request can fail: a storage failure inside the store, or
/// a request body that could not be read as a list of products.
#[derive(Clone, Copy, Debug, PartialEq, Eq)]
pub enum ServiceError {
    Store(StoreError),
    RequestDeserializationError,
}

/// Maps each failure kind to the HTTP status the service answers with: a
/// request body the client got wrong is a client error, any storage
/// failure is a server error.
pub fn status_for(e: &ServiceError) -> (r: u16)
    ensures
        r == (match *e {
            ServiceError::RequestDeserializationError => 400u16,
            ServiceError::Store(_) => 500u16,
        }),
{
    match e {
        ServiceError::RequestDeserializationError => 400,
        ServiceError::Store(_) => 500,
    }
}

/// The fixed confirmation body answered on a successful replacement.
pub fn update_confirmation() -> (r: &'static str)
    ensures
        r@ == "Products updated"@,
{
    "Products updated"
}

/// The read route, stripped of its HTTP skin: fetches the whole
/// collection from the store, as exactly the store's rows. The store is
/// the one `initialize` handed out, so it is ready.
pub fn handle_list(store: &ProductStore) -> (r: Result<Vec<Product>, ServiceError>)
    requires
        store.ready(),
    ensures
        r is Ok ==> product_bag((r->Ok_0)@) == store.rows(),
        r is Err ==> r->Err_0 == ServiceError::Store(StoreError::StorageQueryError),
{
    match store.list_all() {
        Ok(v) => Ok(v),
        Err(e) => Err(ServiceError::Store(e)),
    }
}

/// The write route, stripped of its HTTP skin: replaces the whole
/// collection with the submitted items and confirms the update. The
/// store is the one `initialize` handed out, so it is ready, and it
/// stays ready whatever the outcome.
pub fn handle_replace(store: &mut ProductStore, items: &Vec<Product>) -> (r: Result<
    &'static str,
    ServiceError,
>)
    requires
        old(store).ready(),
    ensures
        final(store).ready(),
        r is Ok ==> final(store).rows() == product_bag(items@) && (r->Ok_0)@
            == "Products updated"@,
        r is Err ==> r->Err_0 == ServiceError::Store(StoreError::StorageWriteError),
{
    match store.replace_all(items) {
        Ok(_) => Ok(update_confirmation()),
        Err(e) => Err(ServiceError::Store(e)),
    }
}

} // verus!
