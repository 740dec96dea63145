use vstd::prelude::*;
use vstd::multiset::Multiset;

verus! {

/// A single product record, the sole entity the store persists.
///
/// The price travels as the raw bit pattern of an IEEE 754 double:
/// the store makes no arithmetic use of it, and carrying the bits keeps
/// every value verbatim across a write and a later read.
#[derive(Clone, Debug, PartialEq)]
pub struct Product {
    pub name: String,
    pub price_bits: u64,
    pub quantity: String,
}

/// The mathematical content of one product record.
pub open spec fn row_of(p: Product) -> (Seq<char>, u64, Seq<char>) {
    (p.name@, p.price_bits, p.quantity@)
}

/// The contents of a sequence of products, as an unordered bag of rows.
/// Row order inside the store has no meaning, so an unordered bag is the
/// right model for what the table holds.
pub open spec fn product_bag(s: Seq<Product>) -> Multiset<(Seq<char>, u64, Seq<char>)>
    decreases s.len(),
{
    if s.len() == 0 {
        Multiset::empty()
    } else {
        product_bag(s.drop_last()).insert(row_of(s.last()))
    }
}

/// A bag of products holds exactly as many rows as the sequence it came from.
pub proof fn lemma_product_bag_len(s: Seq<Product>)
    ensures
        product_bag(s).len() == s.len(),
    decreases s.len(),
{
    broadcast use vstd::multiset::group_multiset_axioms;

    if s.len() > 0 {
        lemma_product_bag_len(s.drop_last());
    }
}

/// Appending one product to a sequence adds exactly its row to the bag.
pub proof fn lemma_product_bag_push(s: Seq<Product>, p: Product)
    ensures
        product_bag(s.push(p)) == product_bag(s).insert(row_of(p)),
{
    assert(s.push(p).drop_last() =~= s);
}

/// Only the empty sequence of products has an empty bag.
pub proof fn lemma_empty_bag_empty_seq(s: Seq<Product>)
    requires
        product_bag(s) == Multiset::<(Seq<char>, u64, Seq<char>)>::empty(),
    ensures
        s =~= Seq::<Product>::empty(),
{
    broadcast use vstd::multiset::group_multiset_axioms;

    lemma_product_bag_len(s);
}

} // verus!
