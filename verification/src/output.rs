//! Derivation of the destination file name.
//!
//! The destination archive's file name is the source file name with its
//! extension replaced by the fixed marker `uncompressed.pak`. The
//! extension is what follows the last `.` of the name, a leading `.`
//! never counting as a separator; a name without an extension gets the
//! marker appended.

use vstd::prelude::*;

verus! {

/// The fixed marker that replaces the source file's extension:
/// the bytes of `uncompressed.pak`.
pub open spec fn output_marker() -> Seq<u8> {
    seq![
        117u8,
        110u8,
        99u8,
        111u8,
        109u8,
        112u8,
        114u8,
        101u8,
        115u8,
        115u8,
        101u8,
        100u8,
        46u8,
        112u8,
        97u8,
        107u8,
    ]
}

/// The length of `name`'s stem: everything before the last `.` that
/// stands strictly after the first byte — so a leading `.` never opens an
/// extension — or the whole name when no such `.` exists.
pub open spec fn spec_stem_len(name: Seq<u8>) -> int
    decreases name.len(),
{
    if name.len() <= 1 {
        name.len() as int
    } else if name[name.len() - 1] == 46u8 {
        name.len() - 1
    } else {
        let inner = spec_stem_len(name.drop_last());
        if inner == name.len() - 1 {
            name.len() as int
        } else {
            inner
        }
    }
}

proof fn lemma_stem_len_bounds(name: Seq<u8>)
    ensures
        0 <= spec_stem_len(name) <= name.len(),
    decreases name.len(),
{
    if name.len() > 1 && name[name.len() - 1] != 46u8 {
        lemma_stem_len_bounds(name.drop_last());
    }
}

/// The destination file name for a source file name: its stem, a `.`,
/// and the fixed marker.
pub fn output_name(name: &Vec<u8>) -> (out: Vec<u8>)
    ensures
        out@ == name@.subrange(0, spec_stem_len(name@)) + seq![46u8] + output_marker(),
{
    proof {
        lemma_stem_len_bounds(name@);
        assert(name@.take(name@.len() as int) =~= name@);
    }
    let mut cut: usize = name.len();
    let mut i: usize = name.len();
    let mut found: bool = false;
    while i > 1 && !found
        invariant
            1 <= i <= name@.len() || (name@.len() == 0 && i == 0),
            !found ==> cut == name@.len(),
            !found ==> spec_stem_len(name@) == if spec_stem_len(name@.take(i as int)) < i {
                spec_stem_len(name@.take(i as int))
            } else {
                name@.len() as int
            },
            found ==> cut == spec_stem_len(name@),
            cut <= name@.len(),
        decreases (if found {
            0int
        } else {
            1int
        }), i,
    {
        proof {
            assert(name@.take(i as int).len() == i);
            assert(name@.take(i as int)[i - 1] == name@[i - 1]);
        }
        if name[i - 1] == 46u8 {
            cut = i - 1;
            found = true;
            proof {
                assert(spec_stem_len(name@.take(i as int)) == i - 1);
            }
        } else {
            proof {
                let pre = name@.take(i as int);
                let shorter = name@.take(i - 1);
                assert(pre.drop_last() =~= shorter);
                lemma_stem_len_bounds(shorter);
            }
            i = i - 1;
        }
    }
    proof {
        if !found {
            if name@.len() == 0 {
                assert(spec_stem_len(name@) == 0);
            } else {
                assert(name@.take(1).len() == 1);
                assert(spec_stem_len(name@.take(1)) == 1);
            }
            assert(cut == spec_stem_len(name@));
        }
    }
    let mut out: Vec<u8> = Vec::new();
    let mut j: usize = 0;
    while j < cut
        invariant
            j <= cut,
            cut <= name@.len(),
            out@ == name@.subrange(0, j as int),
        decreases cut - j,
    {
        out.push(name[j]);
        proof {
            assert(out@ =~= name@.subrange(0, j + 1));
        }
        j = j + 1;
    }
    out.push(46u8);
    out.push(117u8);
    out.push(110u8);
    out.push(99u8);
    out.push(111u8);
    out.push(109u8);
    out.push(112u8);
    out.push(114u8);
    out.push(101u8);
    out.push(115u8);
    out.push(115u8);
    out.push(101u8);
    out.push(100u8);
    out.push(46u8);
    out.push(112u8);
    out.push(97u8);
    out.push(107u8);
    proof {
        assert(out@ =~= name@.subrange(0, spec_stem_len(name@)) + seq![46u8] + output_marker());
    }
    out
}

} // verus!
