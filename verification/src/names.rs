//! Name-based classification of archive entries.
//!
//! An outside lookup table resolves an entry's hash to a file name; the
//! functions here decide, from that resolved name alone, whether the entry
//! holds a texture container (its name ends with the fixed suffix) or is
//! opaque data. An entry with no resolvable name is conservatively treated
//! as opaque.

use vstd::prelude::*;

verus! {

use crate::EntryClass;

/// The file-name suffix that marks an entry as a texture container:
/// the bytes of `.tex.241106027`.
pub open spec fn tex_suffix() -> Seq<u8> {
    seq![
        46u8,
        116u8,
        101u8,
        120u8,
        46u8,
        50u8,
        52u8,
        49u8,
        49u8,
        48u8,
        54u8,
        48u8,
        50u8,
        55u8,
    ]
}

/// Builds the texture-container suffix as bytes for runtime comparison.
pub fn tex_suffix_bytes() -> (v: Vec<u8>)
    ensures
        v@ == tex_suffix(),
{
    let mut v: Vec<u8> = Vec::new();
    v.push(46u8);
    v.push(116u8);
    v.push(101u8);
    v.push(120u8);
    v.push(46u8);
    v.push(50u8);
    v.push(52u8);
    v.push(49u8);
    v.push(49u8);
    v.push(48u8);
    v.push(54u8);
    v.push(48u8);
    v.push(50u8);
    v.push(55u8);
    proof {
        assert(v@ =~= tex_suffix());
    }
    v
}

/// Whether `data` ends with `suffix`, byte for byte.
pub fn ends_with(data: &Vec<u8>, suffix: &Vec<u8>) -> (r: bool)
    ensures
        r == suffix@.is_suffix_of(data@),
{
    if suffix.len() > data.len() {
        return false;
    }
    let off: usize = data.len() - suffix.len();
    let mut i: usize = 0;
    while i < suffix.len()
        invariant
            data@.len() <= usize::MAX,
            suffix@.len() <= data@.len(),
            off == data@.len() - suffix@.len(),
            i <= suffix@.len(),
            forall|j: int| 0 <= j < i ==> data@[off + j] == suffix@[j],
        decreases suffix@.len() - i,
    {
        proof {
            assert(off + i < data@.len());
        }
        if data[off + i] != suffix[i] {
            proof {
                let tail = data@.subrange(
                    data@.len() - suffix@.len(),
                    data@.len() as int,
                );
                assert(tail[i as int] == data@[off + i]);
            }
            return false;
        }
        i = i + 1;
    }
    proof {
        let tail = data@.subrange(data@.len() - suffix@.len(), data@.len() as int);
        assert(suffix@ =~= tail);
    }
    true
}

/// A resolved name marks a texture container iff it ends with `tex_suffix`.
pub open spec fn spec_is_tex_name(name: Seq<u8>) -> bool {
    tex_suffix().is_suffix_of(name)
}

/// Whether a resolved file name marks its entry as a texture container.
pub fn is_tex_name(name: &Vec<u8>) -> (r: bool)
    ensures
        r == spec_is_tex_name(name@),
{
    let suffix = tex_suffix_bytes();
    ends_with(name, &suffix)
}

/// The mathematical view of an optional resolved name.
pub open spec fn name_view(name: Option<Vec<u8>>) -> Option<Seq<u8>> {
    match name {
        Option::Some(v) => Option::Some(v@),
        Option::None => Option::None,
    }
}

/// An entry is transformable iff a name was resolved for its hash and that
/// name ends with the texture-container suffix; every other entry — no name,
/// or a name with another suffix — passes through unchanged.
pub open spec fn spec_classify(name: Option<Seq<u8>>) -> EntryClass {
    match name {
        Option::Some(n) => if spec_is_tex_name(n) {
            EntryClass::Transformable
        } else {
            EntryClass::PassThrough
        },
        Option::None => EntryClass::PassThrough,
    }
}

/// Classifies an entry from its resolved name.
pub fn classify(name: &Option<Vec<u8>>) -> (c: EntryClass)
    ensures
        c == spec_classify(name_view(*name)),
{
    match name {
        Option::Some(n) => {
            if is_tex_name(n) {
                EntryClass::Transformable
            } else {
                EntryClass::PassThrough
            }
        },
        Option::None => EntryClass::PassThrough,
    }
}

} // verus!
