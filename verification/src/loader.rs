//! Product-feed bookkeeping: picking out of a product listing the
//! entries newer than the latest already processed.

use vstd::prelude::*;
use crate::domain::{ListProduct, ProductsResult};
use crate::time_codec::{ts_ticks, ts_to_ticks};

verus! {

/// The products at or after index `i` that are newer than `last_ts`,
/// stopping at the first parseable stamp at or before it; entries with
/// unparseable stamps are passed over rather than ending the scan.
pub open spec fn new_products_spec(products: Seq<ListProduct>, i: int, last_ts: u64) -> Seq<
    ListProduct,
>
    decreases products.len() - i,
{
    if i < 0 || i >= products.len() {
        Seq::empty()
    } else {
        match ts_ticks(products[i].issuance_time@) {
            None => new_products_spec(products, i + 1, last_ts),
            Some(t) => if t <= last_ts {
                Seq::empty()
            } else {
                seq![products[i]] + new_products_spec(products, i + 1, last_ts)
            },
        }
    }
}

fn clone_list_product(p: &ListProduct) -> (r: ListProduct)
    ensures
        r == *p,
{
    ListProduct {
        _id: p._id.clone(),
        id: p.id.clone(),
        wmo_collective_id: p.wmo_collective_id.clone(),
        issuing_office: p.issuing_office.clone(),
        issuance_time: p.issuance_time.clone(),
        product_code: p.product_code.clone(),
        product_name: p.product_name.clone(),
    }
}

/// Returns the products newer than the latest seen.  A plain prefix cut
/// would do, but an unparseable issuance stamp must not hide the
/// products behind it.
pub fn get_new_products(last_ts: u64, products_result: ProductsResult) -> (r: Vec<ListProduct>)
    ensures
        r@ == new_products_spec(products_result.products@, 0, last_ts),
{
    new_products_from(&products_result.products, 0, last_ts)
}

fn new_products_from(products: &Vec<ListProduct>, i: usize, last_ts: u64) -> (r: Vec<ListProduct>)
    requires
        i <= products@.len(),
    ensures
        r@ == new_products_spec(products@, i as int, last_ts),
    decreases products@.len() - i,
{
    if i >= products.len() {
        let r: Vec<ListProduct> = Vec::new();
        proof {
            assert(r@ =~= new_products_spec(products@, i as int, last_ts));
        }
        return r;
    }
    match ts_to_ticks(products[i].issuance_time.as_str()) {
        None => new_products_from(products, i + 1, last_ts),
        Some(t) => {
            if t <= last_ts {
                let r: Vec<ListProduct> = Vec::new();
                proof {
                    assert(r@ =~= new_products_spec(products@, i as int, last_ts));
                }
                r
            } else {
                let tail = new_products_from(products, i + 1, last_ts);
                let mut r: Vec<ListProduct> = Vec::new();
                r.push(clone_list_product(&products[i]));
                let mut t2 = tail;
                r.append(&mut t2);
                proof {
                    assert(r@ =~= new_products_spec(products@, i as int, last_ts));
                }
                r
            }
        },
    }
}

} // verus!
