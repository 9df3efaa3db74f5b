use vstd::prelude::*;
use crate::text::{chars_of, string_of};

verus! {

/// The namespace tag put in front of every counter name: `counter:`.
pub open spec fn key_prefix() -> Seq<char> {
    seq!['c', 'o', 'u', 'n', 't', 'e', 'r', ':']
}

/// A path separator becomes the namespace delimiter; any other character stays.
pub open spec fn flatten_char(c: char) -> char {
    if c == '/' {
        ':'
    } else {
        c
    }
}

/// The counter name with every `/` replaced by `:`.
pub open spec fn flatten(name: Seq<char>) -> Seq<char> {
    name.map_values(|c: char| flatten_char(c))
}

/// The store key of the counter called `name`.
pub open spec fn key_of(name: Seq<char>) -> Seq<char> {
    key_prefix() + flatten(name)
}

/// Derives the store key of a counter: `counter:` followed by the name, with
/// every `/` of the name replaced by `:`.
pub fn counter_key(name: &str) -> (r: String)
    ensures
        r@ == key_of(name@),
{
    let cs = chars_of(name);
    let mut out: Vec<char> = vec!['c', 'o', 'u', 'n', 't', 'e', 'r', ':'];
    let mut i: usize = 0;
    while i < cs.len()
        invariant
            i <= cs@.len(),
            cs@ == name@,
            out@ == key_prefix() + flatten(cs@.subrange(0, i as int)),
        decreases cs@.len() - i,
    {
        let c = cs[i];
        if c == '/' {
            out.push(':');
        } else {
            out.push(c);
        }
        i = i + 1;
        assert(flatten(cs@.subrange(0, i as int)) =~= flatten(cs@.subrange(0, i - 1)).push(
            flatten_char(c),
        ));
    }
    assert(cs@.subrange(0, cs@.len() as int) =~= cs@);
    string_of(&out)
}

/// Key derivation is stable under repetition: flattening a name that is
/// already flat changes nothing, so deriving a key again from the flattened
/// name gives the same key as deriving it once.
pub proof fn lemma_flatten_idempotent(name: Seq<char>)
    ensures
        flatten(flatten(name)) == flatten(name),
        key_of(flatten(name)) == key_of(name),
{
    assert(flatten(flatten(name)) =~= flatten(name));
}

/// A derived key holds no `/`: the name's part of it has a `:` wherever the
/// name has a `/`, and the name's own character everywhere else.
pub proof fn lemma_key_has_no_slash(name: Seq<char>)
    ensures
        key_of(name).len() == key_prefix().len() + name.len(),
        forall|i: int| 0 <= i < key_of(name).len() ==> key_of(name)[i] != '/',
        forall|i: int|
            0 <= i < name.len() ==> (#[trigger] key_of(name)[key_prefix().len() + i]) == (if name[i]
                == '/' {
                ':'
            } else {
                name[i]
            }),
{
    assert forall|i: int| 0 <= i < key_of(name).len() implies key_of(name)[i] != '/' by {
        if i >= key_prefix().len() {
            assert(key_of(name)[i] == flatten_char(name[i - key_prefix().len()]));
        }
    }
}

} // verus!
