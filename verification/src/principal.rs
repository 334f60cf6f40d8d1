//! The process/user identity used as owner marker and as store key.
//!
//! An identity is an opaque, ordered byte string. The anonymous identity is
//! the distinguished single byte `0x04`.

use vstd::prelude::*;

verus! {

/// An opaque identity: a short byte string, compared by content.
#[derive(Debug)]
pub struct PrincipalId {
    bytes: Vec<u8>,
}

impl View for PrincipalId {
    type V = Seq<u8>;

    closed spec fn view(&self) -> Seq<u8> {
        self.bytes@
    }
}

/// The byte content of the anonymous identity.
pub open spec fn anonymous_bytes() -> Seq<u8> {
    seq![4u8]
}

impl PrincipalId {
    /// An identity built from its raw bytes.
    pub fn from_bytes(bytes: Vec<u8>) -> (p: Self)
        ensures
            p@ == bytes@,
    {
        PrincipalId { bytes }
    }

    /// The raw bytes of the identity.
    pub fn as_bytes(&self) -> (r: &Vec<u8>)
        ensures
            r@ == self@,
    {
        &self.bytes
    }

    /// The anonymous identity.
    pub fn anonymous() -> (p: Self)
        ensures
            p@ == anonymous_bytes(),
    {
        let mut bytes: Vec<u8> = Vec::new();
        bytes.push(4u8);
        proof {
            assert(bytes@ =~= anonymous_bytes());
        }
        PrincipalId { bytes }
    }

    /// Content equality of two identities.
    pub fn eq_principal(&self, other: &Self) -> (r: bool)
        ensures
            r == (self@ == other@),
    {
        if self.bytes.len() != other.bytes.len() {
            proof {
                assert(self@ != other@);
            }
            return false;
        }
        let n = self.bytes.len();
        let mut i: usize = 0;
        while i < n
            invariant
                n == self.bytes.len(),
                n == other.bytes.len(),
                i <= n,
                forall|j: int| 0 <= j < i ==> self@[j] == other@[j],
            decreases n - i,
        {
            if self.bytes[i] != other.bytes[i] {
                return false;
            }
            i += 1;
        }
        proof {
            assert(self@ =~= other@);
        }
        true
    }

    /// Byte-lexicographic order of two identities.
    pub fn le_principal(&self, other: &Self) -> (r: bool)
        ensures
            r == lex_le_bytes(self@, other@),
    {
        let n = self.bytes.len();
        let m = other.bytes.len();
        let shorter: usize = if n < m {
            n
        } else {
            m
        };
        let mut i: usize = 0;
        proof {
            assert(self@.skip(0) =~= self@);
            assert(other@.skip(0) =~= other@);
        }
        while i < shorter
            invariant
                n == self.bytes@.len(),
                m == other.bytes@.len(),
                shorter == if n < m {
                    n
                } else {
                    m
                },
                i <= shorter,
                forall|j: int| 0 <= j < i ==> self@[j] == other@[j],
                lex_le_bytes(self@, other@) == lex_le_bytes(
                    self@.skip(i as int),
                    other@.skip(i as int),
                ),
            decreases shorter - i,
        {
            proof {
                assert(self@.skip(i as int)[0] == self@[i as int]);
                assert(other@.skip(i as int)[0] == other@[i as int]);
                assert(self@.skip(i as int).drop_first() =~= self@.skip(i + 1 as int));
                assert(other@.skip(i as int).drop_first() =~= other@.skip(i + 1 as int));
            }
            if self.bytes[i] < other.bytes[i] {
                return true;
            }
            if self.bytes[i] > other.bytes[i] {
                return false;
            }
            i += 1;
        }
        proof {
            if n <= m {
                assert(lex_le_bytes(self@.skip(i as int), other@.skip(i as int))) by {
                    assert(self@.skip(i as int).len() == 0);
                }
            } else {
                assert(!lex_le_bytes(self@.skip(i as int), other@.skip(i as int))) by {
                    assert(other@.skip(i as int).len() == 0);
                    assert(self@.skip(i as int).len() > 0);
                }
            }
        }
        n <= m
    }

    /// True when this is the anonymous identity.
    pub fn is_anonymous(&self) -> (r: bool)
        ensures
            r == (self@ == anonymous_bytes()),
    {
        let anon = PrincipalId::anonymous();
        self.eq_principal(&anon)
    }
}

/// Lexicographic order on byte sequences.
pub open spec fn lex_le_bytes(a: Seq<u8>, b: Seq<u8>) -> bool
    decreases a.len(),
{
    if a.len() == 0 {
        true
    } else if b.len() == 0 {
        false
    } else if a[0] == b[0] {
        lex_le_bytes(a.drop_first(), b.drop_first())
    } else {
        a[0] < b[0]
    }
}

/// Byte order is total.
pub proof fn lemma_lex_le_bytes_total(a: Seq<u8>, b: Seq<u8>)
    ensures
        lex_le_bytes(a, b) || lex_le_bytes(b, a),
    decreases a.len(),
{
    if a.len() == 0 || b.len() == 0 {
    } else if a[0] == b[0] {
        lemma_lex_le_bytes_total(a.drop_first(), b.drop_first());
    }
}

/// Byte order is transitive.
pub proof fn lemma_lex_le_bytes_trans(a: Seq<u8>, b: Seq<u8>, c: Seq<u8>)
    requires
        lex_le_bytes(a, b),
        lex_le_bytes(b, c),
    ensures
        lex_le_bytes(a, c),
    decreases a.len(),
{
    if a.len() == 0 {
    } else if b.len() == 0 {
    } else if c.len() == 0 {
    } else {
        if a[0] == b[0] && b[0] == c[0] {
            lemma_lex_le_bytes_trans(a.drop_first(), b.drop_first(), c.drop_first());
        }
    }
}

/// Byte order is antisymmetric.
pub proof fn lemma_lex_le_bytes_antisym(a: Seq<u8>, b: Seq<u8>)
    requires
        lex_le_bytes(a, b),
        lex_le_bytes(b, a),
    ensures
        a == b,
    decreases a.len(),
{
    if a.len() == 0 {
        assert(b.len() == 0);
        assert(a =~= b);
    } else {
        assert(b.len() > 0);
        assert(a[0] == b[0]);
        lemma_lex_le_bytes_antisym(a.drop_first(), b.drop_first());
        assert(a =~= seq![a[0]] + a.drop_first());
        assert(b =~= seq![b[0]] + b.drop_first());
    }
}

impl Clone for PrincipalId {
    /// A clone has the same content.
    fn clone(&self) -> (r: Self)
        ensures
            r@ == self@,
    {
        let mut bytes: Vec<u8> = Vec::new();
        let n = self.bytes.len();
        let mut i: usize = 0;
        while i < n
            invariant
                n == self.bytes.len(),
                i <= n,
                bytes@ == self@.subrange(0, i as int),
            decreases n - i,
        {
            bytes.push(self.bytes[i]);
            proof {
                assert(bytes@ =~= self@.subrange(0, i + 1 as int));
            }
            i += 1;
        }
        proof {
            assert(bytes@ =~= self@);
        }
        PrincipalId { bytes }
    }
}

} // verus!
