//! Reading the compiled instructions of a stream transaction: account indexes resolved
//! against the message's keys, and "first instruction that ..." searches.
use crate::address::Address;
use crate::types::{CompiledIx, CompiledIxModel};
use vstd::prelude::*;

verus! {

/// The key at `idx`, when the message has that many keys.
pub open spec fn key_at(keys: Seq<Address>, idx: u8) -> Option<Address> {
    if (idx as int) < keys.len() {
        Some(keys[idx as int])
    } else {
        None
    }
}

/// The program of an instruction, when its index resolves.
pub open spec fn ix_program(keys: Seq<Address>, ix: CompiledIxModel) -> Option<Address> {
    key_at(keys, ix.program_id_index)
}

/// The accounts of an instruction, in order, with the indexes that do not resolve left out.
pub open spec fn resolved_accounts(keys: Seq<Address>, accounts: Seq<u8>) -> Seq<Address>
    decreases accounts.len(),
{
    if accounts.len() == 0 {
        Seq::empty()
    } else {
        resolved_accounts(keys, accounts.drop_last()) + match key_at(keys, accounts.last()) {
            Some(k) => seq![k],
            None => Seq::empty(),
        }
    }
}

/// Every account index of the instruction resolves.
pub open spec fn all_resolve(keys: Seq<Address>, accounts: Seq<u8>) -> bool {
    forall|j: int| 0 <= j < accounts.len() ==> (#[trigger] accounts[j] as int) < keys.len()
}

/// The key at `idx`.
pub fn key_at_exec(keys: &Vec<Address>, idx: u8) -> (r: Option<Address>)
    ensures
        r == key_at(keys@, idx),
{
    let i = idx as usize;
    if i < keys.len() {
        Some(keys[i])
    } else {
        None
    }
}

/// Resolves the accounts of an instruction, leaving out indexes that do not resolve.
pub fn resolve_accounts(keys: &Vec<Address>, accounts: &Vec<u8>) -> (r: Vec<Address>)
    ensures
        r@ == resolved_accounts(keys@, accounts@),
{
    let mut out: Vec<Address> = Vec::new();
    let mut i: usize = 0;
    while i < accounts.len()
        invariant
            0 <= i <= accounts@.len(),
            out@ == resolved_accounts(keys@, accounts@.take(i as int)),
        decreases accounts.len() - i,
    {
        assert(accounts@.take(i + 1).drop_last() =~= accounts@.take(i as int));
        match key_at_exec(keys, accounts[i]) {
            Some(k) => {
                out.push(k);
            },
            None => {},
        }
        proof {
            let t = accounts@.take(i + 1);
            assert(t.last() == accounts@[i as int]);
            assert(out@ =~= resolved_accounts(keys@, t));
        }
        i = i + 1;
    }
    assert(accounts@.take(i as int) =~= accounts@);
    out
}

/// The first value that `f` gives along `s`.
pub open spec fn first_some<A, B>(s: Seq<A>, f: spec_fn(A) -> Option<B>) -> Option<B>
    decreases s.len(),
{
    if s.len() == 0 {
        None
    } else {
        match f(s[0]) {
            Some(b) => Some(b),
            None => first_some(s.subrange(1, s.len() as int), f),
        }
    }
}

/// One step of a `first_some` search at position `i`.
pub proof fn lemma_first_some_step<A, B>(s: Seq<A>, f: spec_fn(A) -> Option<B>, i: int)
    requires
        0 <= i < s.len(),
    ensures
        f(s[i]) is None ==> first_some(s.subrange(i, s.len() as int), f) == first_some(s.subrange(i + 1, s.len() as int), f),
        f(s[i]) is Some ==> first_some(s.subrange(i, s.len() as int), f) == f(s[i]),
{
    let t = s.subrange(i, s.len() as int);
    assert(t[0] == s[i]);
    assert(t.subrange(1, t.len() as int) =~= s.subrange(i + 1, s.len() as int));
}

/// The search over the whole sequence starts at position 0, and finds nothing past the end.
pub proof fn lemma_first_some_ends<A, B>(s: Seq<A>, f: spec_fn(A) -> Option<B>)
    ensures
        s.subrange(0, s.len() as int) == s,
        first_some(s.subrange(s.len() as int, s.len() as int), f) is None,
{
    assert(s.subrange(0, s.len() as int) =~= s);
}

/// What `first_some` finds, `f` gives at some position.
pub proof fn lemma_first_some_found<A, B>(s: Seq<A>, f: spec_fn(A) -> Option<B>)
    requires
        first_some(s, f) is Some,
    ensures
        exists|i: int| 0 <= i < s.len() && f(#[trigger] s[i]) == first_some(s, f),
    decreases s.len(),
{
    if f(s[0]) is Some {
        assert(f(s[0]) == first_some(s, f));
    } else {
        let t = s.subrange(1, s.len() as int);
        lemma_first_some_found(t, f);
        let j = choose|j: int| 0 <= j < t.len() && f(#[trigger] t[j]) == first_some(t, f);
        assert(t[j] == s[j + 1]);
        assert(f(s[j + 1]) == first_some(s, f));
    }
}

/// The first position of `x` in `s`.
pub open spec fn first_index<A>(s: Seq<A>, x: A) -> Option<int>
    decreases s.len(),
{
    if s.len() == 0 {
        None
    } else if s[0] == x {
        Some(0)
    } else {
        match first_index(s.subrange(1, s.len() as int), x) {
            Some(i) => Some(i + 1),
            None => None,
        }
    }
}

/// `first_index` finds nothing when `x` does not occur.
pub proof fn lemma_first_index_none<A>(s: Seq<A>, x: A)
    requires
        !s.contains(x),
    ensures
        first_index(s, x) is None,
    decreases s.len(),
{
    if s.len() > 0 {
        let t = s.subrange(1, s.len() as int);
        assert(!t.contains(x)) by {
            if t.contains(x) {
                let k = choose|k: int| 0 <= k < t.len() && t[k] == x;
                assert(s[k + 1] == x);
            }
        }
        lemma_first_index_none(t, x);
    }
}

/// `first_index` finds the first occurrence.
pub proof fn lemma_first_index_at<A>(s: Seq<A>, x: A, i: int)
    requires
        0 <= i < s.len(),
        s[i] == x,
        forall|j: int| 0 <= j < i ==> s[j] != x,
    ensures
        first_index(s, x) == Some(i),
    decreases s.len(),
{
    if i > 0 {
        let t = s.subrange(1, s.len() as int);
        assert(s[0] != x);
        assert(t[i - 1] == x);
        assert forall|j: int| 0 <= j < i - 1 implies t[j] != x by {
            assert(t[j] == s[j + 1]);
        }
        lemma_first_index_at(t, x, i - 1);
    }
}

/// Position of the first occurrence of `x` in `keys`.
pub fn position_of(keys: &Vec<Address>, x: &Address) -> (r: Option<usize>)
    ensures
        match r {
            Some(i) => i < keys@.len() && keys@[i as int] == *x && first_index(keys@, *x) == Some(i as int),
            None => !keys@.contains(*x) && first_index(keys@, *x) is None,
        },
{
    let mut i: usize = 0;
    while i < keys.len()
        invariant
            0 <= i <= keys@.len(),
            forall|j: int| 0 <= j < i ==> keys@[j] != *x,
        decreases keys.len() - i,
    {
        if keys[i].same(x) {
            proof {
                lemma_first_index_at(keys@, *x, i as int);
            }
            return Some(i);
        }
        i = i + 1;
    }
    proof {
        lemma_first_index_none(keys@, *x);
    }
    None
}

/// When every index resolves, an instruction's accounts are the keys at its indexes, one
/// for one and in order; in any case they are at most as many, each a key.
pub proof fn law_resolved_accounts(keys: Seq<Address>, accounts: Seq<u8>)
    ensures
        resolved_accounts(keys, accounts).len() <= accounts.len(),
        forall|j: int| 0 <= j < resolved_accounts(keys, accounts).len() ==> keys.contains(#[trigger] resolved_accounts(keys, accounts)[j]),
        all_resolve(keys, accounts) ==> {
            &&& resolved_accounts(keys, accounts).len() == accounts.len()
            &&& forall|j: int| 0 <= j < accounts.len() ==> #[trigger] resolved_accounts(keys, accounts)[j] == keys[accounts[j] as int]
        },
    decreases accounts.len(),
{
    if accounts.len() > 0 {
        let d = accounts.drop_last();
        law_resolved_accounts(keys, d);
        let rd = resolved_accounts(keys, d);
        let r = resolved_accounts(keys, accounts);
        assert forall|j: int| 0 <= j < r.len() implies keys.contains(#[trigger] r[j]) by {
            if j < rd.len() {
                assert(r[j] == rd[j]);
            } else {
                let i = accounts.last() as int;
                assert(r[j] == keys[i]);
            }
        }
        if all_resolve(keys, accounts) {
            assert(all_resolve(keys, d)) by {
                assert forall|j: int| 0 <= j < d.len() implies (#[trigger] d[j] as int) < keys.len() by {
                    assert(d[j] == accounts[j]);
                }
            }
            assert((accounts[accounts.len() - 1] as int) < keys.len());
            assert forall|j: int| 0 <= j < accounts.len() implies #[trigger] r[j] == keys[accounts[j] as int] by {
                if j < d.len() {
                    assert(r[j] == rd[j]);
                    assert(d[j] == accounts[j]);
                }
            }
        }
    }
}

/// `first_some` gives the value at the first position where `f` gives one, and nothing
/// when `f` gives nothing anywhere.
pub proof fn lemma_first_some_first<A, B>(s: Seq<A>, f: spec_fn(A) -> Option<B>)
    ensures
        first_some(s, f) is None ==> forall|j: int| 0 <= j < s.len() ==> f(#[trigger] s[j]) is None,
        first_some(s, f) is Some ==> exists|i: int| 0 <= i < s.len() && f(#[trigger] s[i]) == first_some(s, f)
            && forall|j: int| 0 <= j < i ==> f(#[trigger] s[j]) is None,
    decreases s.len(),
{
    if s.len() > 0 {
        let t = s.subrange(1, s.len() as int);
        lemma_first_some_first(t, f);
        if f(s[0]) is None {
            if first_some(s, f) is None {
                assert forall|j: int| 0 <= j < s.len() implies f(#[trigger] s[j]) is None by {
                    if j > 0 {
                        assert(s[j] == t[j - 1]);
                    }
                }
            } else {
                let i = choose|i: int| 0 <= i < t.len() && f(#[trigger] t[i]) == first_some(t, f)
                    && forall|j: int| 0 <= j < i ==> f(#[trigger] t[j]) is None;
                assert(s[i + 1] == t[i]);
                assert forall|j: int| 0 <= j < i + 1 implies f(#[trigger] s[j]) is None by {
                    if j > 0 {
                        assert(s[j] == t[j - 1]);
                    }
                }
            }
        }
    }
}

} // verus!
