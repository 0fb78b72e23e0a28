//! The document model for the wire format: a JSON value held as plain data,
//! with the key operations the normalizer needs (key lookup and key removal
//! on objects).

use vstd::prelude::*;

verus! {

/// A JSON document. Object entries keep their wire order and may repeat;
/// a number is held as its lexeme so that no precision is lost.
#[derive(Debug, PartialEq, Eq)]
pub enum Json {
    Null,
    Bool(bool),
    /// The number's lexeme, e.g. `-12.5e3`.
    Num(String),
    Str(String),
    Arr(Vec<Json>),
    Obj(Vec<(String, Json)>),
}

/// Whether the entry list binds the key `k`.
pub open spec fn has_key(es: Seq<(String, Json)>, k: Seq<char>) -> bool {
    exists|i: int| 0 <= i < es.len() && (#[trigger] es[i]).0@ == k
}

/// The entry list with every binding of `k` removed, order otherwise kept.
pub open spec fn remove_key(es: Seq<(String, Json)>, k: Seq<char>) -> Seq<(String, Json)>
    decreases es.len(),
{
    if es.len() == 0 {
        Seq::empty()
    } else if es[0].0@ == k {
        remove_key(es.drop_first(), k)
    } else {
        seq![es[0]] + remove_key(es.drop_first(), k)
    }
}

/// `has_key` seen one entry at a time: the key is bound by the first entry
/// or somewhere in the rest.
pub proof fn lemma_has_key_unfold(es: Seq<(String, Json)>, k: Seq<char>)
    ensures
        has_key(es, k) == (es.len() > 0 && (es[0].0@ == k || has_key(es.drop_first(), k))),
{
    if has_key(es, k) {
        let i = choose|i: int| 0 <= i < es.len() && (#[trigger] es[i]).0@ == k;
        if i > 0 {
            assert(es.drop_first()[i - 1] == es[i]);
        }
    }
    if es.len() > 0 {
        if es[0].0@ == k {
        } else if has_key(es.drop_first(), k) {
            let j = choose|j: int|
                0 <= j < es.drop_first().len() && (#[trigger] es.drop_first()[j]).0@ == k;
            assert(es[j + 1] == es.drop_first()[j]);
        }
    }
}

/// Removing one key does not touch the bindings of any other key.
pub proof fn lemma_remove_key_keeps_others(es: Seq<(String, Json)>, k: Seq<char>, k2: Seq<char>)
    requires
        k2 != k,
    ensures
        has_key(remove_key(es, k), k2) == has_key(es, k2),
    decreases es.len(),
{
    lemma_has_key_unfold(es, k2);
    if es.len() == 0 {
    } else {
        lemma_remove_key_keeps_others(es.drop_first(), k, k2);
        let tail = remove_key(es.drop_first(), k);
        if es[0].0@ == k {
            assert(es[0].0@ != k2);
        } else {
            let r = seq![es[0]] + tail;
            assert(remove_key(es, k) == r);
            lemma_has_key_unfold(r, k2);
            assert(r[0] == es[0]);
            assert(r.drop_first() =~= tail);
        }
    }
}

/// Removing a key removes every binding of it.
pub proof fn lemma_remove_key_removes(es: Seq<(String, Json)>, k: Seq<char>)
    ensures
        !has_key(remove_key(es, k), k),
    decreases es.len(),
{
    if es.len() == 0 {
    } else {
        lemma_remove_key_removes(es.drop_first(), k);
        if es[0].0@ == k {
        } else {
            let r = remove_key(es, k);
            let tail = remove_key(es.drop_first(), k);
            assert forall|i: int| 0 <= i < r.len() implies (#[trigger] r[i]).0@ != k by {
                if i == 0 {
                } else {
                    assert(r[i] == tail[i - 1]);
                }
            }
        }
    }
}

/// Removing a key that is not bound leaves the entries unchanged.
pub proof fn lemma_remove_key_absent(es: Seq<(String, Json)>, k: Seq<char>)
    requires
        !has_key(es, k),
    ensures
        remove_key(es, k) == es,
    decreases es.len(),
{
    if es.len() == 0 {
        assert(remove_key(es, k) =~= es);
    } else {
        assert(es[0].0@ != k);
        assert(!has_key(es.drop_first(), k)) by {
            assert forall|i: int| 0 <= i < es.drop_first().len() implies (#[trigger] es.drop_first()[i]).0@
                != k by {
                assert(es.drop_first()[i] == es[i + 1]);
            }
        }
        lemma_remove_key_absent(es.drop_first(), k);
        assert(remove_key(es, k) =~= es);
    }
}

/// Returns whether the object entries bind the key `k`.
pub fn obj_has_key(es: &Vec<(String, Json)>, k: &str) -> (r: bool)
    ensures
        r == has_key(es@, k@),
{
    let key: String = k.to_owned();
    let mut i: usize = 0;
    while i < es.len()
        invariant
            i <= es@.len(),
            key@ == k@,
            forall|j: int| 0 <= j < i ==> (#[trigger] es@[j]).0@ != k@,
        decreases es@.len() - i,
    {
        if es[i].0 == key {
            return true;
        }
        i = i + 1;
    }
    false
}

/// Returns the entries with every binding of `k` removed, order kept.
pub fn remove_entries(es: Vec<(String, Json)>, k: &str) -> (r: Vec<(String, Json)>)
    ensures
        r@ == remove_key(es@, k@),
{
    let key: String = k.to_owned();
    let ghost orig = es@;
    let mut rest = es;
    let mut out: Vec<(String, Json)> = Vec::new();
    while rest.len() > 0
        invariant
            key@ == k@,
            remove_key(orig, k@) == out@ + remove_key(rest@, k@),
        decreases rest@.len(),
    {
        let ghost before = rest@;
        let e = rest.remove(0);
        proof {
            assert(rest@ =~= before.drop_first());
        }
        if e.0 == key {
            proof {
                assert(out@ + remove_key(before, k@) =~= out@ + remove_key(rest@, k@));
            }
        } else {
            out.push(e);
            proof {
                assert(out@ + remove_key(rest@, k@) =~= remove_key(orig, k@));
            }
        }
    }
    proof {
        assert(out@ + remove_key(rest@, k@) =~= out@);
    }
    out
}

} // verus!
