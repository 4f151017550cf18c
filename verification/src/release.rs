use vstd::prelude::*;

use crate::errors::Error;

verus! {

/// One file attached to a remote release: a `(download_url, name)` pair.
#[derive(Debug)]
pub struct ReleaseAsset {
    pub download_url: String,
    pub name: String,
}

impl Clone for ReleaseAsset {
    fn clone(&self) -> (r: Self)
        ensures
            r == *self,
    {
        ReleaseAsset { download_url: self.download_url.clone(), name: self.name.clone() }
    }
}

impl ReleaseAsset {
    /// Build an asset from its two required fields, each `None` when the
    /// metadata record lacked it. Fails on the first missing field, the
    /// download URL being checked before the name.
    pub fn from_parts(download_url: Option<String>, name: Option<String>) -> (r: Result<
        ReleaseAsset,
        Error,
    >)
        ensures
            download_url is None ==> (r matches Err(e) && e is Update && e.spec_message()
                == "Asset missing `browser_download_url`"@),
            download_url is Some && name is None ==> (r matches Err(e) && e is Update
                && e.spec_message() == "Asset missing `name`"@),
            download_url is Some && name is Some ==> (r matches Ok(a) && a.download_url
                == download_url->0 && a.name == name->0),
    {
        match download_url {
            None => Err(
                Error::Update(String::from_str("Asset missing `browser_download_url`")),
            ),
            Some(u) => match name {
                None => Err(Error::Update(String::from_str("Asset missing `name`"))),
                Some(n) => Ok(ReleaseAsset { download_url: u, name: n }),
            },
        }
    }
}

/// The latest release's tag string and its list of assets.
#[derive(Debug)]
pub struct ReleaseMetadata {
    pub tag: String,
    pub assets: Vec<ReleaseAsset>,
}

/// `needle` occurs in `hay` starting at position `i`.
pub open spec fn contains_at(hay: Seq<char>, needle: Seq<char>, i: int) -> bool {
    0 <= i && i + needle.len() <= hay.len() && hay.subrange(i, i + needle.len()) == needle
}

/// `needle` occurs somewhere in `hay`.
pub open spec fn contains_substr(hay: Seq<char>, needle: Seq<char>) -> bool {
    exists|i: int| contains_at(hay, needle, i)
}

/// Whether `needle` occurs in `hay` starting exactly at `i`.
fn matches_at(hay: &str, needle: &str, i: usize) -> (r: bool)
    requires
        i + needle@.len() <= hay@.len(),
        hay@.len() <= usize::MAX,
    ensures
        r == contains_at(hay@, needle@, i as int),
{
    let nlen = needle.unicode_len();
    let mut j: usize = 0;
    while j < nlen
        invariant
            0 <= j <= nlen,
            nlen == needle@.len(),
            i + nlen <= hay@.len(),
            hay@.len() <= usize::MAX,
            forall|k: int| 0 <= k < j ==> hay@[i + k] == needle@[k],
        decreases nlen - j,
    {
        if hay.get_char(i + j) != needle.get_char(j) {
            assert(hay@.subrange(i as int, i + needle@.len()) != needle@) by {
                assert(hay@.subrange(i as int, i + needle@.len())[j as int] == hay@[i + j]);
            }
            return false;
        }
        j = j + 1;
    }
    assert(hay@.subrange(i as int, i + needle@.len()) =~= needle@);
    true
}

/// Whether `needle` occurs in `hay` as a contiguous substring.
pub fn str_contains(hay: &str, needle: &str) -> (r: bool)
    ensures
        r == contains_substr(hay@, needle@),
{
    let hlen = hay.unicode_len();
    let nlen = needle.unicode_len();
    if nlen == 0 {
        assert(contains_at(hay@, needle@, 0)) by {
            assert(hay@.subrange(0, 0) =~= needle@);
        }
        return true;
    }
    if nlen > hlen {
        assert(!contains_substr(hay@, needle@)) by {
            assert(forall|i: int| !contains_at(hay@, needle@, i));
        }
        return false;
    }
    let mut i: usize = 0;
    while i <= hlen - nlen
        invariant
            0 <= i <= hlen - nlen + 1,
            1 <= nlen <= hlen,
            hlen == hay@.len(),
            nlen == needle@.len(),
            forall|k: int| 0 <= k < i ==> !contains_at(hay@, needle@, k),
        decreases hlen - i,
    {
        if matches_at(hay, needle, i) {
            return true;
        }
        i = i + 1;
    }
    assert forall|k: int| !contains_at(hay@, needle@, k) by {
        if 0 <= k < i {
        } else if k >= i {
            assert(k + needle@.len() > hay@.len());
        }
    }
    false
}

/// Select the first asset whose name contains the target platform
/// identifier as a substring; substring (not exact) matching tolerates
/// packaging suffixes around the platform string. Fails exactly when no
/// asset name contains the target.
pub fn select_asset(assets: &Vec<ReleaseAsset>, target: &str) -> (r: Result<ReleaseAsset, Error>)
    ensures
        (r is Ok) == (exists|i: int|
            0 <= i < assets@.len() && contains_substr(assets@[i].name@, target@)),
        r matches Ok(a) ==> exists|i: int|
            {
                &&& 0 <= i < assets@.len()
                &&& a == assets@[i]
                &&& contains_substr(assets@[i].name@, target@)
                &&& forall|j: int| 0 <= j < i ==> !contains_substr(assets@[j].name@, target@)
            },
        r matches Err(e) ==> e is Update && e.spec_message()
            == "No release asset found for current target: `"@ + target@ + "`"@,
{
    let n = assets.len();
    let mut i: usize = 0;
    while i < n
        invariant
            0 <= i <= n,
            n == assets@.len(),
            forall|j: int| 0 <= j < i ==> !contains_substr(assets@[j].name@, target@),
        decreases n - i,
    {
        if str_contains(assets[i].name.as_str(), target) {
            return Ok(assets[i].clone());
        }
        i = i + 1;
    }
    let mut msg = String::from_str("No release asset found for current target: `");
    msg.append(target);
    msg.append("`");
    Err(Error::Update(msg))
}

} // verus!
