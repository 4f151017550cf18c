use vstd::prelude::*;

verus! {

/// What the replacement protocol leaves on disk: the contents of the
/// installed path, the contents of the backup slot in the scratch
/// directory (absent when the backup was never written), and whether the
/// replacement as a whole succeeded.
pub struct ReplaceOutcome {
    pub installed: Vec<u8>,
    pub backup: Option<Vec<u8>>,
    pub replaced: bool,
}

/// The backup-then-rename-then-rollback-on-failure protocol of the
/// Atomic Replacer, run over the modeled contents of the paths involved.
/// `installed` holds the bytes at the installed path before the call and
/// `staged` the bytes of the newly extracted executable; the caller
/// reports whether each filesystem step succeeded (`copy_ok`: copying the
/// installed binary to the backup slot; `rename_ok`: renaming the staged
/// binary onto the installed path) and the function decides what each
/// failure means.
///
/// Whatever the step outcomes, the installed path ends either as the new,
/// fully-written executable or byte-identical to what it was before the
/// call: never partially written, never missing.
pub fn replace_exe(installed: Vec<u8>, staged: Vec<u8>, copy_ok: bool, rename_ok: bool) -> (r:
    ReplaceOutcome)
    ensures
        r.replaced == (copy_ok && rename_ok),
        copy_ok && rename_ok ==> r.installed@ == staged@,
        !(copy_ok && rename_ok) ==> r.installed@ == installed@,
        copy_ok ==> (r.backup matches Some(b) && b@ == installed@),
        !copy_ok ==> r.backup is None,
        r.installed@ == staged@ || r.installed@ == installed@,
{
    if !copy_ok {
        // No safe way to proceed without a backup: abort before any
        // destructive step, leaving the installed path untouched.
        return ReplaceOutcome { installed, backup: None, replaced: false };
    }
    let backup = clone_bytes(&installed);
    if rename_ok {
        // The rename moved the staged binary onto the installed path; the
        // backup stays in the scratch directory rather than adding another
        // failure point to the success path.
        ReplaceOutcome { installed: staged, backup: Some(backup), replaced: true }
    } else {
        // The rename failed (cross-device move, permissions): restore the
        // original binary from the backup and propagate the failure, a net
        // no-op on the installed path.
        let restored = clone_bytes(&backup);
        ReplaceOutcome { installed: restored, backup: Some(backup), replaced: false }
    }
}

/// A byte-for-byte copy, as `fs::copy` leaves the destination.
fn clone_bytes(src: &Vec<u8>) -> (r: Vec<u8>)
    ensures
        r@ == src@,
{
    let mut out: Vec<u8> = Vec::new();
    let n = src.len();
    let mut i: usize = 0;
    while i < n
        invariant
            0 <= i <= n,
            n == src@.len(),
            out@ == src@.subrange(0, i as int),
        decreases n - i,
    {
        out.push(src[i]);
        assert(out@ =~= src@.subrange(0, i + 1));
        i = i + 1;
    }
    assert(out@ =~= src@);
    out
}

} // verus!
