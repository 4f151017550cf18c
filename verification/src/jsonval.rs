use vstd::prelude::*;

use crate::errors::Error;
use crate::release::ReleaseAsset;
use crate::release::ReleaseMetadata;

verus! {

/// Declares serde_json::Value so that parsed release metadata can flow
/// through verified signatures; the value itself stays opaque and is only
/// read through the trusted accessors below.
#[verifier::external_type_specification]
#[verifier::external_body]
pub struct ExValue(serde_json::Value);

/// What serde_json::Value::get returns for the given value and key: the
/// field under `key` when the value is an object holding it, `None`
/// otherwise. A function of its arguments alone.
pub uninterp spec fn get_of(v: serde_json::Value, key: Seq<char>) -> Option<serde_json::Value>;

/// What serde_json::Value::as_str returns for the given value: the
/// carried characters when the value is a JSON string, `None` otherwise.
pub uninterp spec fn str_of(v: serde_json::Value) -> Option<Seq<char>>;

/// What serde_json::Value::as_array returns for the given value: the
/// carried elements when the value is a JSON array, `None` otherwise.
pub uninterp spec fn array_of(v: serde_json::Value) -> Option<Seq<serde_json::Value>>;

/// Relies on serde_json::Value::get: looks a key up in a JSON object,
/// `None` when the value is not an object or the key is absent.
#[verifier::external_body]
fn json_get<'a>(v: &'a serde_json::Value, key: &str) -> (r: Option<&'a serde_json::Value>)
    ensures
        (r is Some) == (get_of(*v, key@) is Some),
        r matches Some(f) ==> get_of(*v, key@) == Some(*f),
{
    v.get(key)
}

/// Relies on serde_json::Value::as_str: the carried string when the value
/// is a JSON string, `None` otherwise.
#[verifier::external_body]
fn json_as_str(v: &serde_json::Value) -> (r: Option<String>)
    ensures
        (r is Some) == (str_of(*v) is Some),
        r matches Some(s) ==> Some(s@) == str_of(*v),
{
    v.as_str().map(|s| s.to_owned())
}

/// Relies on serde_json::Value::as_array: the carried vector when the
/// value is a JSON array, `None` otherwise.
#[verifier::external_body]
fn json_as_array<'a>(v: &'a serde_json::Value) -> (r: Option<&'a Vec<serde_json::Value>>)
    ensures
        (r is Some) == (array_of(*v) is Some),
        r matches Some(a) ==> Some(a@) == array_of(*v),
{
    v.as_array()
}

/// The string under `key` in the given JSON value: present exactly when
/// the value is an object holding the key and the field is a string.
pub open spec fn spec_string_field(v: serde_json::Value, key: Seq<char>) -> Option<Seq<char>> {
    match get_of(v, key) {
        Some(f) => str_of(f),
        None => None,
    }
}

/// An asset record's download URL, when present as a string field.
pub open spec fn spec_asset_url(v: serde_json::Value) -> Option<Seq<char>> {
    spec_string_field(v, "browser_download_url"@)
}

/// An asset record's name, when present as a string field.
pub open spec fn spec_asset_name(v: serde_json::Value) -> Option<Seq<char>> {
    spec_string_field(v, "name"@)
}

/// An asset record holds both of its required string fields.
pub open spec fn spec_asset_ok(v: serde_json::Value) -> bool {
    spec_asset_url(v) is Some && spec_asset_name(v) is Some
}

/// The metadata record's asset entries: present exactly when the record
/// holds `assets` as an array.
pub open spec fn spec_assets_list(release: serde_json::Value) -> Option<
    Seq<serde_json::Value>,
> {
    match get_of(release, "assets"@) {
        Some(f) => array_of(f),
        None => None,
    }
}

/// Every entry of the list holds both required asset fields.
pub open spec fn spec_all_assets_ok(entries: Seq<serde_json::Value>) -> bool {
    forall|i: int| 0 <= i < entries.len() ==> spec_asset_ok(#[trigger] entries[i])
}

/// `list` is the element-wise parse of `entries`: same length, each
/// asset's fields equal to the entry's string fields.
pub open spec fn spec_parsed_assets(entries: Seq<serde_json::Value>, list: Seq<ReleaseAsset>) -> bool {
    &&& list.len() == entries.len()
    &&& forall|i: int|
        0 <= i < entries.len() ==> Some(#[trigger] list[i].download_url@) == spec_asset_url(
            entries[i],
        ) && Some(list[i].name@) == spec_asset_name(entries[i])
}

/// The string under `key` in the given JSON value, when the value is an
/// object, holds the key, and the field is a string.
pub fn string_field(v: &serde_json::Value, key: &str) -> (r: Option<String>)
    ensures
        (r is Some) == (spec_string_field(*v, key@) is Some),
        r matches Some(s) ==> Some(s@) == spec_string_field(*v, key@),
{
    match json_get(v, key) {
        Some(f) => json_as_str(f),
        None => None,
    }
}

/// Parse one release-asset record: the asset's download URL and name,
/// each a required string field. Succeeds exactly when both are present,
/// with the asset's fields equal to them; otherwise fails with an
/// `Update` error naming the first missing field, the download URL being
/// checked before the name.
pub fn from_asset(asset: &serde_json::Value) -> (r: Result<ReleaseAsset, Error>)
    ensures
        (r is Ok) == spec_asset_ok(*asset),
        r matches Ok(a) ==> Some(a.download_url@) == spec_asset_url(*asset) && Some(a.name@)
            == spec_asset_name(*asset),
        spec_asset_url(*asset) is None ==> (r matches Err(e) && e is Update && e.spec_message()
            == "Asset missing `browser_download_url`"@),
        spec_asset_url(*asset) is Some && spec_asset_name(*asset) is None ==> (r matches Err(e)
            && e is Update && e.spec_message() == "Asset missing `name`"@),
{
    let download_url = string_field(asset, "browser_download_url");
    let name = string_field(asset, "name");
    ReleaseAsset::from_parts(download_url, name)
}

/// Parse the release's tag string out of the metadata record. Succeeds
/// exactly when the record holds `tag_name` as a string field, returning
/// that string; otherwise fails with an `Update` error saying so.
pub fn parse_tag(release: &serde_json::Value) -> (r: Result<String, Error>)
    ensures
        (r is Ok) == (spec_string_field(*release, "tag_name"@) is Some),
        r matches Ok(tag) ==> Some(tag@) == spec_string_field(*release, "tag_name"@),
        r matches Err(e) ==> e is Update && e.spec_message()
            == "No tag_name found for latest release"@,
{
    match string_field(release, "tag_name") {
        Some(tag) => Ok(tag),
        None => Err(Error::Update(String::from_str("No tag_name found for latest release"))),
    }
}

/// Parse every asset entry of the metadata record. Succeeds exactly when
/// the `assets` array is present and every entry holds both required
/// fields, returning their element-wise parse; fails the whole call on
/// the list's absence or the first entry with a missing field.
pub fn parse_assets(release: &serde_json::Value) -> (r: Result<Vec<ReleaseAsset>, Error>)
    ensures
        (r is Ok) == (spec_assets_list(*release) matches Some(entries) && spec_all_assets_ok(
            entries,
        )),
        r matches Ok(list) ==> (spec_assets_list(*release) matches Some(entries)
            && spec_parsed_assets(entries, list@)),
        spec_assets_list(*release) is None ==> (r matches Err(e) && e is Update
            && e.spec_message() == "No release assets found!"@),
        r matches Err(e) ==> e is Update && (e.spec_message() == "No release assets found!"@
            || e.spec_message() == "Asset missing `browser_download_url`"@ || e.spec_message()
            == "Asset missing `name`"@),
{
    let list = match json_get(release, "assets") {
        Some(f) => json_as_array(f),
        None => None,
    };
    let entries = match list {
        Some(a) => a,
        None => {
            return Err(Error::Update(String::from_str("No release assets found!")));
        },
    };
    let ghost entries_view = entries@;
    assert(spec_assets_list(*release) == Some(entries_view));
    let mut assets: Vec<ReleaseAsset> = Vec::new();
    let n = entries.len();
    let mut i: usize = 0;
    while i < n
        invariant
            0 <= i <= n,
            n == entries_view.len(),
            spec_assets_list(*release) == Some(entries_view),
            entries@ == entries_view,
            assets@.len() == i,
            forall|j: int| 0 <= j < i ==> spec_asset_ok(#[trigger] entries_view[j]),
            forall|j: int|
                0 <= j < i ==> Some(#[trigger] assets@[j].download_url@) == spec_asset_url(
                    entries_view[j],
                ) && Some(assets@[j].name@) == spec_asset_name(entries_view[j]),
        decreases n - i,
    {
        match from_asset(&entries[i]) {
            Ok(a) => assets.push(a),
            Err(e) => {
                assert(!spec_all_assets_ok(entries_view)) by {
                    assert(!spec_asset_ok(entries_view[i as int]));
                }
                return Err(e);
            },
        }
        i = i + 1;
    }
    Ok(assets)
}

/// Parse the whole metadata record: tag first, then the asset list.
/// Succeeds exactly when the tag is a string field, the `assets` array is
/// present and every entry holds both required fields.
pub fn parse_release_metadata(release: &serde_json::Value) -> (r: Result<ReleaseMetadata, Error>)
    ensures
        (r is Ok) == (spec_string_field(*release, "tag_name"@) is Some && (spec_assets_list(
            *release,
        ) matches Some(entries) && spec_all_assets_ok(entries))),
        r matches Ok(m) ==> Some(m.tag@) == spec_string_field(*release, "tag_name"@)
            && (spec_assets_list(*release) matches Some(entries) && spec_parsed_assets(
            entries,
            m.assets@,
        )),
        spec_string_field(*release, "tag_name"@) is None ==> (r matches Err(e) && e is Update
            && e.spec_message() == "No tag_name found for latest release"@),
        r matches Err(e) ==> e is Update,
{
    let tag = match parse_tag(release) {
        Ok(t) => t,
        Err(e) => {
            return Err(e);
        },
    };
    match parse_assets(release) {
        Ok(assets) => Ok(ReleaseMetadata { tag, assets }),
        Err(e) => Err(e),
    }
}

} // verus!
