use vstd::prelude::*;

verus! {

/// Ordinal (code-point lexicographic) strict order on character sequences.
/// This is deliberately not semantic-version aware: `"9"` sorts above `"10"`.
pub open spec fn seq_str_lt(a: Seq<char>, b: Seq<char>) -> bool
    decreases a.len(),
{
    if b.len() == 0 {
        false
    } else if a.len() == 0 {
        true
    } else if a[0] != b[0] {
        (a[0] as int) < (b[0] as int)
    } else {
        seq_str_lt(a.skip(1), b.skip(1))
    }
}

/// Compare two version strings ordinally.
///
/// Returns `Less` when `current` sorts strictly below `latest`, `Greater`
/// when strictly above, `Equal` exactly when the strings are identical.
pub fn compare(current: &str, latest: &str) -> (r: core::cmp::Ordering)
    ensures
        (r == core::cmp::Ordering::Less) == seq_str_lt(current@, latest@),
        (r == core::cmp::Ordering::Greater) == seq_str_lt(latest@, current@),
        (r == core::cmp::Ordering::Equal) == (current@ == latest@),
    decreases current@.len() + latest@.len(),
{
    let alen = current.unicode_len();
    let blen = latest.unicode_len();
    if blen == 0 {
        if alen == 0 {
            assert(current@ =~= latest@);
            core::cmp::Ordering::Equal
        } else {
            assert(current@ != latest@) by {
                assert(current@.len() != latest@.len());
            }
            core::cmp::Ordering::Greater
        }
    } else if alen == 0 {
        assert(current@ != latest@) by {
            assert(current@.len() != latest@.len());
        }
        core::cmp::Ordering::Less
    } else {
        let ca = current.get_char(0);
        let cb = latest.get_char(0);
        if ca == cb {
            let r = compare(
                current.substring_char(1, alen),
                latest.substring_char(1, blen),
            );
            proof {
                if current@.skip(1) == latest@.skip(1) {
                    assert forall|j: int| 0 <= j < current@.len() implies current@[j]
                        == latest@[j] by {
                        if j > 0 {
                            assert(current@.skip(1)[j - 1] == latest@.skip(1)[j - 1]);
                        }
                    }
                    assert(current@ =~= latest@);
                }
                if current@ == latest@ {
                    assert(current@.skip(1) =~= latest@.skip(1));
                }
            }
            r
        } else if (ca as u32) < (cb as u32) {
            assert(current@ != latest@) by {
                assert(current@[0] != latest@[0]);
            }
            core::cmp::Ordering::Less
        } else {
            assert(current@ != latest@) by {
                assert(current@[0] != latest@[0]);
            }
            core::cmp::Ordering::Greater
        }
    }
}

/// What remains of a tag once every leading `v` has been removed.
pub open spec fn spec_strip_v(s: Seq<char>) -> Seq<char>
    decreases s.len(),
{
    if s.len() > 0 && s[0] == 'v' {
        spec_strip_v(s.skip(1))
    } else {
        s
    }
}

proof fn lemma_strip_v_prefix(s: Seq<char>, i: int)
    requires
        0 <= i <= s.len(),
        forall|j: int| 0 <= j < i ==> s[j] == 'v',
        i == s.len() || s[i] != 'v',
    ensures
        spec_strip_v(s) == s.skip(i),
    decreases i,
{
    if i == 0 {
        assert(s.skip(0) =~= s);
    } else {
        assert(s[0] == 'v');
        lemma_strip_v_prefix(s.skip(1), i - 1);
        assert(s.skip(1).skip(i - 1) =~= s.skip(i));
    }
}

/// Remove every leading `v` from a release tag, so that the remote tag
/// `v1.2.0` compares against a bare current version such as `1.2.0`.
pub fn strip_v(tag: &str) -> (r: &str)
    ensures
        r@ == spec_strip_v(tag@),
{
    let len = tag.unicode_len();
    let mut i: usize = 0;
    while i < len && tag.get_char(i) == 'v'
        invariant
            0 <= i <= len,
            len == tag@.len(),
            forall|j: int| 0 <= j < i ==> tag@[j] == 'v',
        decreases len - i,
    {
        i = i + 1;
    }
    proof {
        lemma_strip_v_prefix(tag@, i as int);
    }
    let r = tag.substring_char(i, len);
    assert(r@ =~= tag@.skip(i as int));
    r
}

} // verus!
