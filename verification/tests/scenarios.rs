//! Scenario tests over a three-entry source archive: `a.tex.241106027`
//! (a valid texture), `b.tex.241106027` (a texture the codec rejects) and
//! `c.dat` (opaque data).

use pak_transcode::plan::plan_entries;
use pak_transcode::plan::EntryInput;
use pak_transcode::run::EntryStatus;
use pak_transcode::run::Run;
use pak_transcode::transform::CodecOutcome;
use pak_transcode::EntryClass;
use pak_transcode::EntryError;
use pak_transcode::Stage;
use pak_transcode::TexFailure;

const HASH_A: u64 = 0xAAAA;
const HASH_B: u64 = 0xBBBB;
const HASH_C: u64 = 0xCCCC;
const ATTR_A: u64 = 11;
const ATTR_B: u64 = 22;
const ATTR_C: u64 = 33;

fn three_entries() -> Vec<EntryInput> {
    vec![
        EntryInput {
            hash: HASH_A,
            attr: ATTR_A,
            name: Some(b"a.tex.241106027".to_vec()),
        },
        EntryInput {
            hash: HASH_B,
            attr: ATTR_B,
            name: Some(b"b.tex.241106027".to_vec()),
        },
        EntryInput {
            hash: HASH_C,
            attr: ATTR_C,
            name: Some(b"c.dat".to_vec()),
        },
    ]
}

#[test]
fn texture_only_mode_selects_the_two_textures() {
    let plan = plan_entries(&three_entries(), false, true);
    assert_eq!(plan.len(), 2);
    assert_eq!(plan[0].hash, HASH_A);
    assert_eq!(plan[1].hash, HASH_B);
    assert_eq!(plan[0].class, EntryClass::Transformable);
    assert_eq!(plan[1].class, EntryClass::Transformable);
    assert_eq!(plan[0].src_idx, 0);
    assert_eq!(plan[1].src_idx, 1);
}

#[test]
fn full_package_mode_selects_everything() {
    let plan = plan_entries(&three_entries(), true, false);
    assert_eq!(plan.len(), 3);
    assert_eq!(plan[2].hash, HASH_C);
    assert_eq!(plan[2].class, EntryClass::PassThrough);
    assert_eq!(plan[2].src_idx, 2);
    for p in &plan {
        assert_eq!(p.attr_out, 0);
    }
}

#[test]
fn attribute_cloning_carries_source_bits() {
    let plan = plan_entries(&three_entries(), true, true);
    assert_eq!(plan[0].attr_out, ATTR_A);
    assert_eq!(plan[1].attr_out, ATTR_B);
    assert_eq!(plan[2].attr_out, ATTR_C);
}

/// Texture-only mode, attribute cloning on: `a` is decoded and written,
/// `b` fails in the codec, `c` was never selected. The destination holds
/// exactly one entry, with `a`'s attribute bits, and the run reports the
/// failure.
#[test]
fn texture_only_run_with_one_malformed_texture() {
    let plan = plan_entries(&three_entries(), false, true);
    let mut run = Run::new(plan);

    let i = run.dispatch().expect("first entry");
    assert_eq!(i, 0);
    let decoded = b"decoded mips of a".to_vec();
    let r = run.process(i, Some(b"raw a".to_vec()), CodecOutcome::Decoded(decoded.clone()));
    assert_eq!(r, None);

    let j = run.dispatch().expect("second entry");
    assert_eq!(j, 1);
    let r = run.process(
        j,
        Some(b"raw b".to_vec()),
        CodecOutcome::Failed(TexFailure::Malformed),
    );
    assert_eq!(r, Some(EntryError::MalformedTexture));
    assert!(run.has_failed());
    assert_eq!(run.status_of(i), EntryStatus::Done);
    assert_eq!(run.status_of(j), EntryStatus::Failed(Stage::Transforming));

    // the failure stops dispatch
    assert_eq!(run.dispatch(), None);

    let (archive, report) = run.finish();
    assert!(report.failed);
    assert!(!report.complete);
    assert_eq!(report.entries_written, 1);
    assert_eq!(archive.len(), 1);
    assert_eq!(archive[0].hash, HASH_A);
    assert_eq!(archive[0].attr, ATTR_A);
    assert_eq!(archive[0].data, decoded);
}

/// Full-package mode: all three entries are dispatched before `b`'s
/// failure is observed — as a concurrent fan-out would — so `a` and `c`
/// still complete. `a` is decoded, `c` is copied byte for byte, `b` is
/// excluded, and the run still reports failure.
#[test]
fn full_package_run_keeps_dispatched_entries() {
    let plan = plan_entries(&three_entries(), true, true);
    let mut run = Run::new(plan);

    let a = run.dispatch().expect("entry a");
    let b = run.dispatch().expect("entry b");
    let c = run.dispatch().expect("entry c");

    let r = run.process(
        b,
        Some(b"raw b".to_vec()),
        CodecOutcome::Failed(TexFailure::DecodeFailed),
    );
    assert_eq!(r, Some(EntryError::DecodeFailed));
    assert!(run.has_failed());
    assert_eq!(run.dispatch(), None);

    // entries already dispatched still run to completion
    let raw_c = b"opaque payload of c".to_vec();
    let r = run.process(c, Some(raw_c.clone()), CodecOutcome::NotRun);
    assert_eq!(r, None);
    let decoded_a = b"decoded a".to_vec();
    let r = run.process(a, Some(b"raw a".to_vec()), CodecOutcome::Decoded(decoded_a.clone()));
    assert_eq!(r, None);

    let (archive, report) = run.finish();
    assert!(report.failed);
    assert_eq!(report.entries_written, 2);
    // completion order, not plan order
    assert_eq!(archive[0].hash, HASH_C);
    assert_eq!(archive[0].data, raw_c);
    assert_eq!(archive[0].attr, ATTR_C);
    assert_eq!(archive[1].hash, HASH_A);
    assert_eq!(archive[1].data, decoded_a);
    assert_eq!(archive[1].attr, ATTR_A);
}

/// A clean full-package run: every entry is written, pass-through entries
/// byte for byte, and the byte counter adds up the payload lengths.
#[test]
fn clean_run_writes_every_entry() {
    let plan = plan_entries(&three_entries(), true, false);
    let mut run = Run::new(plan);

    while let Some(i) = run.dispatch() {
        let raw = vec![i as u8; 4 + i];
        let r = match run.class_of(i) {
            EntryClass::Transformable => {
                run.process(i, Some(raw), CodecOutcome::Decoded(vec![0xFE; 10]))
            }
            EntryClass::PassThrough => run.process(i, Some(raw), CodecOutcome::NotRun),
        };
        assert_eq!(r, None);
    }

    assert!(!run.has_failed());
    assert_eq!(run.written_count(), 3);
    assert_eq!(run.bytes_written(), 10 + 10 + 6);

    let (archive, report) = run.finish();
    assert!(!report.failed);
    assert!(report.complete);
    assert_eq!(report.entries_written, 3);
    assert_eq!(report.total_bytes, 26);
    // the pass-through entry kept its bytes exactly
    assert_eq!(archive[2].hash, HASH_C);
    assert_eq!(archive[2].data, vec![2u8; 6]);
    // attribute cloning off: every destination attribute is the default
    for e in &archive {
        assert_eq!(e.attr, 0);
    }
}

/// A read failure is a per-entry error too: the entry is excluded, the
/// run halts, everything already written is preserved.
#[test]
fn read_failure_halts_and_preserves_prior_work() {
    let plan = plan_entries(&three_entries(), true, true);
    let mut run = Run::new(plan);

    let a = run.dispatch().unwrap();
    let r = run.process(a, Some(b"raw a".to_vec()), CodecOutcome::Decoded(b"da".to_vec()));
    assert_eq!(r, None);

    let b = run.dispatch().unwrap();
    let r = run.process(b, None, CodecOutcome::NotRun);
    assert_eq!(r, Some(EntryError::ReadFailed));
    assert_eq!(run.status_of(b), EntryStatus::Failed(Stage::Reading));

    // the third entry was never dispatched
    assert_eq!(run.status_of(2), EntryStatus::Pending);
    assert_eq!(run.dispatch(), None);
    let (archive, report) = run.finish();
    assert!(report.failed);
    assert_eq!(report.entries_written, 1);
    assert_eq!(archive[0].hash, HASH_A);
}

/// Many entries dispatched at once — as a worker pool would — with
/// failures injected at different stages: the finalized destination holds
/// exactly the entries that succeeded, and the run reports failure.
#[test]
fn injected_failures_leave_exactly_the_successes() {
    let inputs: Vec<EntryInput> = (0..10u64)
        .map(|n| EntryInput {
            hash: 0x1000 + n,
            attr: n,
            name: Some(format!("f{n}.tex.241106027").into_bytes()),
        })
        .collect();
    let plan = plan_entries(&inputs, false, true);
    assert_eq!(plan.len(), 10);
    let mut run = Run::new(plan);

    // fan out: every entry is dispatched before any outcome lands
    let jobs: Vec<usize> = std::iter::from_fn(|| run.dispatch()).collect();
    assert_eq!(jobs.len(), 10);

    // outcomes land out of order; entries 2, 5 and 7 fail at different stages
    let mut failures = 0;
    for &i in &[4usize, 2, 9, 5, 0, 7, 1, 8, 3, 6] {
        let r = match i {
            2 => run.process(i, None, CodecOutcome::NotRun),
            5 => run.process(
                i,
                Some(vec![5; 3]),
                CodecOutcome::Failed(TexFailure::Malformed),
            ),
            7 => run.process(
                i,
                Some(vec![7; 3]),
                CodecOutcome::Failed(TexFailure::EncodeFailed),
            ),
            _ => run.process(i, Some(vec![i as u8; 3]), CodecOutcome::Decoded(vec![i as u8; 8])),
        };
        if r.is_some() {
            failures += 1;
        }
    }
    assert_eq!(failures, 3);
    assert_eq!(run.status_of(2), EntryStatus::Failed(Stage::Reading));
    assert_eq!(run.status_of(5), EntryStatus::Failed(Stage::Transforming));
    assert_eq!(run.status_of(7), EntryStatus::Failed(Stage::Transforming));

    let (archive, report) = run.finish();
    assert!(report.failed);
    assert_eq!(report.entries_written, 7);
    assert_eq!(archive.len(), 7);
    assert_eq!(report.total_bytes, 7 * 8);
    let mut written: Vec<u64> = archive.iter().map(|e| e.hash).collect();
    written.sort();
    let expected: Vec<u64> = [0u64, 1, 3, 4, 6, 8, 9].iter().map(|n| 0x1000 + n).collect();
    assert_eq!(written, expected);
    for e in &archive {
        assert_eq!(e.attr, e.hash - 0x1000);
        assert_eq!(e.data, vec![(e.hash - 0x1000) as u8; 8]);
    }
}

/// Finalization is total and reports exactly what was written, also when
/// nothing was processed at all.
#[test]
fn empty_run_finalizes_cleanly() {
    let plan = plan_entries(&Vec::new(), false, true);
    assert_eq!(plan.len(), 0);
    let mut run = Run::new(plan);
    assert_eq!(run.dispatch(), None);
    let (archive, report) = run.finish();
    assert_eq!(archive.len(), 0);
    assert_eq!(report.entries_written, 0);
    assert_eq!(report.total_bytes, 0);
    assert!(!report.failed);
    assert!(report.complete);
}
