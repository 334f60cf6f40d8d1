//! The contract a store key must satisfy: a mathematical view, a total
//! order on views, content equality and comparison decidable at run time,
//! and a view-preserving clone.

use vstd::prelude::*;

use crate::principal::{lemma_lex_le_bytes_antisym, lemma_lex_le_bytes_total,
    lemma_lex_le_bytes_trans, lex_le_bytes, PrincipalId};
use crate::text::{lemma_lex_le_antisym, lemma_lex_le_total, lemma_lex_le_trans, lex_le, str_le};

verus! {

/// A key of a store: ordered content with a mathematical view; two keys are
/// the same entry exactly when their views are equal, and stores keep their
/// entries ascending in the key order.
pub trait StorageKey: View + Sized {
    /// The total order on key views.
    spec fn le_view(a: <Self as View>::V, b: <Self as View>::V) -> bool;

    /// The order is total.
    proof fn le_view_total(a: <Self as View>::V, b: <Self as View>::V)
        ensures
            Self::le_view(a, b) || Self::le_view(b, a),
    ;

    /// The order is transitive.
    proof fn le_view_trans(a: <Self as View>::V, b: <Self as View>::V, c: <Self as View>::V)
        requires
            Self::le_view(a, b),
            Self::le_view(b, c),
        ensures
            Self::le_view(a, c),
    ;

    /// The order is antisymmetric.
    proof fn le_view_antisym(a: <Self as View>::V, b: <Self as View>::V)
        requires
            Self::le_view(a, b),
            Self::le_view(b, a),
        ensures
            a == b,
    ;

    /// Content equality.
    fn key_eq(&self, other: &Self) -> (r: bool)
        ensures
            r == (self@ == other@),
    ;

    /// The run-time comparison, faithful to `le_view`.
    fn key_le(&self, other: &Self) -> (r: bool)
        ensures
            r == Self::le_view(self@, other@),
    ;

    /// A copy with the same view.
    fn key_clone(&self) -> (r: Self)
        ensures
            r@ == self@,
    ;
}

impl StorageKey for u64 {
    open spec fn le_view(a: u64, b: u64) -> bool {
        a <= b
    }

    proof fn le_view_total(a: u64, b: u64) {
    }

    proof fn le_view_trans(a: u64, b: u64, c: u64) {
    }

    proof fn le_view_antisym(a: u64, b: u64) {
    }

    fn key_eq(&self, other: &Self) -> (r: bool)
        ensures
            r == (self@ == other@),
    {
        *self == *other
    }

    fn key_le(&self, other: &Self) -> (r: bool) {
        *self <= *other
    }

    fn key_clone(&self) -> (r: Self)
        ensures
            r@ == self@,
    {
        *self
    }
}

impl StorageKey for u32 {
    open spec fn le_view(a: u32, b: u32) -> bool {
        a <= b
    }

    proof fn le_view_total(a: u32, b: u32) {
    }

    proof fn le_view_trans(a: u32, b: u32, c: u32) {
    }

    proof fn le_view_antisym(a: u32, b: u32) {
    }

    fn key_eq(&self, other: &Self) -> (r: bool)
        ensures
            r == (self@ == other@),
    {
        *self == *other
    }

    fn key_le(&self, other: &Self) -> (r: bool) {
        *self <= *other
    }

    fn key_clone(&self) -> (r: Self)
        ensures
            r@ == self@,
    {
        *self
    }
}

impl StorageKey for String {
    open spec fn le_view(a: Seq<char>, b: Seq<char>) -> bool {
        lex_le(a, b)
    }

    proof fn le_view_total(a: Seq<char>, b: Seq<char>) {
        lemma_lex_le_total(a, b);
    }

    proof fn le_view_trans(a: Seq<char>, b: Seq<char>, c: Seq<char>) {
        lemma_lex_le_trans(a, b, c);
    }

    proof fn le_view_antisym(a: Seq<char>, b: Seq<char>) {
        lemma_lex_le_antisym(a, b);
    }

    fn key_eq(&self, other: &Self) -> (r: bool)
        ensures
            r == (self@ == other@),
    {
        self.eq(other)
    }

    fn key_le(&self, other: &Self) -> (r: bool) {
        str_le(self.as_str(), other.as_str())
    }

    fn key_clone(&self) -> (r: Self)
        ensures
            r@ == self@,
    {
        self.clone()
    }
}

impl StorageKey for PrincipalId {
    open spec fn le_view(a: Seq<u8>, b: Seq<u8>) -> bool {
        lex_le_bytes(a, b)
    }

    proof fn le_view_total(a: Seq<u8>, b: Seq<u8>) {
        lemma_lex_le_bytes_total(a, b);
    }

    proof fn le_view_trans(a: Seq<u8>, b: Seq<u8>, c: Seq<u8>) {
        lemma_lex_le_bytes_trans(a, b, c);
    }

    proof fn le_view_antisym(a: Seq<u8>, b: Seq<u8>) {
        lemma_lex_le_bytes_antisym(a, b);
    }

    fn key_eq(&self, other: &Self) -> (r: bool)
        ensures
            r == (self@ == other@),
    {
        self.eq_principal(other)
    }

    fn key_le(&self, other: &Self) -> (r: bool) {
        self.le_principal(other)
    }

    fn key_clone(&self) -> (r: Self)
        ensures
            r@ == self@,
    {
        self.clone()
    }
}

} // verus!
