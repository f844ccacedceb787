//! The records of the release API and how they are read from a response.

use crate::json::{
    items, json_items, json_member, json_number, json_of_text, json_string, member, number, parse,
    string,
};
use crate::measure::{is_within_limits, within_limits};
use rustc_serialize::json::Json;
use vstd::prelude::*;
use vstd::string::*;

verus! {

/// A release of the repository.
#[derive(Debug)]
pub struct Release {
    pub id: u64,
    pub name: String,
    pub upload_url: String,
    pub assets_url: String,
}

/// What a `Release` holds.
pub struct ReleaseModel {
    pub id: u64,
    pub name: Seq<char>,
    pub upload_url: Seq<char>,
    pub assets_url: Seq<char>,
}

impl View for Release {
    type V = ReleaseModel;

    open spec fn view(&self) -> ReleaseModel {
        ReleaseModel {
            id: self.id,
            name: self.name@,
            upload_url: self.upload_url@,
            assets_url: self.assets_url@,
        }
    }
}

/// A file attached to a release.
#[derive(Debug)]
pub struct Asset {
    pub id: u64,
    pub name: String,
    pub label: String,
}

/// What an `Asset` holds.
pub struct AssetModel {
    pub id: u64,
    pub name: Seq<char>,
    pub label: Seq<char>,
}

impl View for Asset {
    type V = AssetModel;

    open spec fn view(&self) -> AssetModel {
        AssetModel { id: self.id, name: self.name@, label: self.label@ }
    }
}

/// The name of the release that artifacts are published to.
pub open spec fn release_name() -> Seq<char> {
    "master"@
}

/// The number under `key` in an object.
pub open spec fn number_field(value: Json, key: Seq<char>) -> Option<u64> {
    match json_member(value, key) {
        Some(m) => json_number(m),
        None => None,
    }
}

/// The text under `key` in an object.
pub open spec fn string_field(value: Json, key: Seq<char>) -> Option<Seq<char>> {
    match json_member(value, key) {
        Some(m) => json_string(m),
        None => None,
    }
}

/// The release that a parsed value describes: an object with a number `id`
/// and the texts `name`, `upload_url` and `assets_url`.
pub open spec fn release_of_json(value: Json) -> Option<ReleaseModel> {
    match (
        number_field(value, "id"@),
        string_field(value, "name"@),
        string_field(value, "upload_url"@),
        string_field(value, "assets_url"@),
    ) {
        (Some(id), Some(name), Some(upload_url), Some(assets_url)) => Some(
            ReleaseModel { id, name, upload_url, assets_url },
        ),
        _ => None,
    }
}

/// The asset that a parsed value describes: an object with a number `id` and
/// the texts `name` and `label`.
pub open spec fn asset_of_json(value: Json) -> Option<AssetModel> {
    match (
        number_field(value, "id"@),
        string_field(value, "name"@),
        string_field(value, "label"@),
    ) {
        (Some(id), Some(name), Some(label)) => Some(AssetModel { id, name, label }),
        _ => None,
    }
}

/// The value that a response body is parsed to: nothing for a body that is
/// beyond the limits of size, nesting and key length, that has an exponent or
/// a comma before a `}`, or that the parser refuses.
pub open spec fn value_of_text(text: Seq<char>) -> Option<Json> {
    if within_limits(text) {
        json_of_text(text)
    } else {
        None
    }
}

/// The release that a response body describes.
pub open spec fn release_of_text(text: Seq<char>) -> Option<ReleaseModel> {
    match value_of_text(text) {
        Some(value) => release_of_json(value),
        None => None,
    }
}

/// The asset that a response body describes.
pub open spec fn asset_of_text(text: Seq<char>) -> Option<AssetModel> {
    match value_of_text(text) {
        Some(value) => asset_of_json(value),
        None => None,
    }
}

/// The releases that a list of parsed values describes, in its order: all of
/// them, or nothing where one item describes none.
pub open spec fn releases_of_items(items: Seq<Json>) -> Option<Seq<ReleaseModel>> {
    if forall|i: int| 0 <= i < items.len() ==> (#[trigger] release_of_json(items[i])).is_some() {
        Some(Seq::new(items.len(), |i: int| release_of_json(items[i]).unwrap()))
    } else {
        None
    }
}

/// The assets that a list of parsed values describes, in its order: all of
/// them, or nothing where one item describes none.
pub open spec fn assets_of_items(items: Seq<Json>) -> Option<Seq<AssetModel>> {
    if forall|i: int| 0 <= i < items.len() ==> (#[trigger] asset_of_json(items[i])).is_some() {
        Some(Seq::new(items.len(), |i: int| asset_of_json(items[i]).unwrap()))
    } else {
        None
    }
}

/// The releases that a response body describes: a JSON array of releases.
pub open spec fn releases_of_text(text: Seq<char>) -> Option<Seq<ReleaseModel>> {
    match value_of_text(text) {
        Some(value) => match json_items(value) {
            Some(items) => releases_of_items(items),
            None => None,
        },
        None => None,
    }
}

/// The assets that a response body describes: a JSON array of assets.
pub open spec fn assets_of_text(text: Seq<char>) -> Option<Seq<AssetModel>> {
    match value_of_text(text) {
        Some(value) => match json_items(value) {
            Some(items) => assets_of_items(items),
            None => None,
        },
        None => None,
    }
}

/// The names of a list of releases, in its order.
pub open spec fn release_names(list: Seq<ReleaseModel>) -> Seq<Seq<char>> {
    Seq::new(list.len(), |i: int| list[i].name)
}

/// The names of a list of assets, in its order.
pub open spec fn asset_names(list: Seq<AssetModel>) -> Seq<Seq<char>> {
    Seq::new(list.len(), |i: int| list[i].name)
}

/// Whether `i` is the first place of `names` that holds `wanted`.
pub open spec fn is_first_named(names: Seq<Seq<char>>, wanted: Seq<char>, i: int) -> bool {
    &&& 0 <= i < names.len()
    &&& names[i] == wanted
    &&& forall|j: int| 0 <= j < i ==> names[j] != wanted
}

/// The first place of `names` that holds `wanted`, where one does.
pub open spec fn first_named(names: Seq<Seq<char>>, wanted: Seq<char>) -> Option<int> {
    if exists|i: int| is_first_named(names, wanted, i) {
        Some(choose|i: int| is_first_named(names, wanted, i))
    } else {
        None
    }
}

/// Two first places of one name are one place.
pub proof fn first_named_unique(names: Seq<Seq<char>>, wanted: Seq<char>, i: int, k: int)
    requires
        is_first_named(names, wanted, i),
        is_first_named(names, wanted, k),
    ensures
        i == k,
{
    if i < k {
        assert(names[i] != wanted);
    } else if k < i {
        assert(names[k] != wanted);
    }
}

/// A name has a first place exactly where it occurs at all.
pub proof fn first_named_found(names: Seq<Seq<char>>, wanted: Seq<char>)
    ensures
        first_named(names, wanted).is_some() <==> names.contains(wanted),
        match first_named(names, wanted) {
            Some(i) => is_first_named(names, wanted, i),
            None => true,
        },
{
    if names.contains(wanted) {
        first_occurrence(names, wanted, names.len() as int);
    }
    if first_named(names, wanted).is_some() {
        let i = choose|i: int| is_first_named(names, wanted, i);
        assert(names[i] == wanted);
    }
}

proof fn first_occurrence(names: Seq<Seq<char>>, wanted: Seq<char>, upto: int)
    requires
        0 <= upto <= names.len(),
        exists|i: int| 0 <= i < upto && names[i] == wanted,
    ensures
        exists|i: int| is_first_named(names, wanted, i),
    decreases upto,
{
    let i = choose|i: int| 0 <= i < upto && names[i] == wanted;
    if exists|j: int| 0 <= j < i && names[j] == wanted {
        first_occurrence(names, wanted, i);
    } else {
        assert(is_first_named(names, wanted, i));
    }
}

/// Reading a release keeps its four members exactly: a body describes a
/// release exactly where its value has a number `id` and texts `name`,
/// `upload_url` and `assets_url`, and the release then holds these and
/// nothing else.
pub proof fn decoded_release_keeps_its_members(text: Seq<char>, value: Json)
    requires
        value_of_text(text) == Some(value),
    ensures
        release_of_text(text).is_some() <==> {
            &&& number_field(value, "id"@).is_some()
            &&& string_field(value, "name"@).is_some()
            &&& string_field(value, "upload_url"@).is_some()
            &&& string_field(value, "assets_url"@).is_some()
        },
        release_of_text(text) matches Some(release) ==> {
            &&& number_field(value, "id"@) == Some(release.id)
            &&& string_field(value, "name"@) == Some(release.name)
            &&& string_field(value, "upload_url"@) == Some(release.upload_url)
            &&& string_field(value, "assets_url"@) == Some(release.assets_url)
        },
{
}

/// Reads a release out of a parsed value.
pub fn release_from_json(value: &Json) -> (release: Option<Release>)
    ensures
        match release {
            Some(r) => release_of_json(*value) == Some(r@),
            None => release_of_json(*value).is_none(),
        },
{
    let id = match member(value, "id") {
        Some(m) => number(&m),
        None => None,
    };
    let name = match member(value, "name") {
        Some(m) => string(&m),
        None => None,
    };
    let upload_url = match member(value, "upload_url") {
        Some(m) => string(&m),
        None => None,
    };
    let assets_url = match member(value, "assets_url") {
        Some(m) => string(&m),
        None => None,
    };
    match (id, name, upload_url, assets_url) {
        (Some(id), Some(name), Some(upload_url), Some(assets_url)) => Some(
            Release { id, name, upload_url, assets_url },
        ),
        _ => None,
    }
}

/// Reads an asset out of a parsed value.
pub fn asset_from_json(value: &Json) -> (asset: Option<Asset>)
    ensures
        match asset {
            Some(a) => asset_of_json(*value) == Some(a@),
            None => asset_of_json(*value).is_none(),
        },
{
    let id = match member(value, "id") {
        Some(m) => number(&m),
        None => None,
    };
    let name = match member(value, "name") {
        Some(m) => string(&m),
        None => None,
    };
    let label = match member(value, "label") {
        Some(m) => string(&m),
        None => None,
    };
    match (id, name, label) {
        (Some(id), Some(name), Some(label)) => Some(Asset { id, name, label }),
        _ => None,
    }
}

/// What a list of releases holds, item by item.
pub open spec fn release_models(list: Seq<Release>) -> Seq<ReleaseModel> {
    Seq::new(list.len(), |i: int| list[i]@)
}

/// What a list of assets holds, item by item.
pub open spec fn asset_models(list: Seq<Asset>) -> Seq<AssetModel> {
    Seq::new(list.len(), |i: int| list[i]@)
}

/// Parses a response body, unless it is beyond the limits.
pub fn decode_value(body: &str) -> (value: Option<Json>)
    ensures
        value == value_of_text(body@),
{
    if is_within_limits(body) {
        parse(body)
    } else {
        None
    }
}

/// Reads a release out of a response body.
pub fn decode_release(body: &str) -> (release: Option<Release>)
    ensures
        match release {
            Some(r) => release_of_text(body@) == Some(r@),
            None => release_of_text(body@).is_none(),
        },
{
    match decode_value(body) {
        Some(value) => release_from_json(&value),
        None => None,
    }
}

/// Reads an asset out of a response body.
pub fn decode_asset(body: &str) -> (asset: Option<Asset>)
    ensures
        match asset {
            Some(a) => asset_of_text(body@) == Some(a@),
            None => asset_of_text(body@).is_none(),
        },
{
    match decode_value(body) {
        Some(value) => asset_from_json(&value),
        None => None,
    }
}

/// Reads a list of releases out of a response body.
pub fn decode_releases(body: &str) -> (list: Option<Vec<Release>>)
    ensures
        match list {
            Some(v) => releases_of_text(body@) == Some(release_models(v@)),
            None => releases_of_text(body@).is_none(),
        },
{
    let value = match decode_value(body) {
        Some(value) => value,
        None => { return None; },
    };
    let values = match items(&value) {
        Some(values) => values,
        None => { return None; },
    };
    let mut list: Vec<Release> = Vec::new();
    let mut i: usize = 0;
    while i < values.len()
        invariant
            value_of_text(body@) == Some(value),
            json_items(value) == Some(values@),
            i <= values.len(),
            list.len() == i,
            forall|j: int| 0 <= j < i ==> release_of_json(values@[j]) == Some(#[trigger] list@[j]@),
        decreases values.len() - i,
    {
        match release_from_json(&values[i]) {
            Some(r) => { list.push(r); },
            None => {
                assert(release_of_json(values@[i as int]).is_none());
                return None;
            },
        }
        i += 1;
    }
    proof {
        assert forall|j: int| 0 <= j < values@.len() implies (#[trigger] release_of_json(
            values@[j],
        )).is_some() by {
            assert(release_of_json(values@[j]) == Some(list@[j]@));
        }
        assert(releases_of_items(values@).unwrap() =~= release_models(list@)) by {
            assert forall|j: int| 0 <= j < values@.len() implies release_of_json(
                values@[j],
            ).unwrap() == release_models(list@)[j] by {
                assert(release_of_json(values@[j]) == Some(list@[j]@));
            }
        }
    }
    Some(list)
}

/// Reads a list of assets out of a response body.
pub fn decode_assets(body: &str) -> (list: Option<Vec<Asset>>)
    ensures
        match list {
            Some(v) => assets_of_text(body@) == Some(asset_models(v@)),
            None => assets_of_text(body@).is_none(),
        },
{
    let value = match decode_value(body) {
        Some(value) => value,
        None => { return None; },
    };
    let values = match items(&value) {
        Some(values) => values,
        None => { return None; },
    };
    let mut list: Vec<Asset> = Vec::new();
    let mut i: usize = 0;
    while i < values.len()
        invariant
            value_of_text(body@) == Some(value),
            json_items(value) == Some(values@),
            i <= values.len(),
            list.len() == i,
            forall|j: int| 0 <= j < i ==> asset_of_json(values@[j]) == Some(#[trigger] list@[j]@),
        decreases values.len() - i,
    {
        match asset_from_json(&values[i]) {
            Some(a) => { list.push(a); },
            None => {
                assert(asset_of_json(values@[i as int]).is_none());
                return None;
            },
        }
        i += 1;
    }
    proof {
        assert forall|j: int| 0 <= j < values@.len() implies (#[trigger] asset_of_json(
            values@[j],
        )).is_some() by {
            assert(asset_of_json(values@[j]) == Some(list@[j]@));
        }
        assert(assets_of_items(values@).unwrap() =~= asset_models(list@)) by {
            assert forall|j: int| 0 <= j < values@.len() implies asset_of_json(
                values@[j],
            ).unwrap() == asset_models(list@)[j] by {
                assert(asset_of_json(values@[j]) == Some(list@[j]@));
            }
        }
    }
    Some(list)
}

/// Finds the first release that is named "master".
pub fn find_master(releases: &Vec<Release>) -> (at: Option<usize>)
    ensures
        match at {
            Some(i) => first_named(release_names(release_models(releases@)), release_name())
                == Some(i as int),
            None => first_named(release_names(release_models(releases@)), release_name()).is_none(),
        },
{
    let wanted = String::from_str("master");
    let ghost names = release_names(release_models(releases@));
    let mut i: usize = 0;
    while i < releases.len()
        invariant
            i <= releases.len(),
            wanted@ == release_name(),
            names == release_names(release_models(releases@)),
            forall|j: int| 0 <= j < i ==> names[j] != wanted@,
        decreases releases.len() - i,
    {
        if releases[i].name == wanted {
            proof {
                assert(names[i as int] == releases@[i as int].name@);
                assert(is_first_named(names, wanted@, i as int));
                let k = choose|k: int| is_first_named(names, wanted@, k);
                first_named_unique(names, wanted@, i as int, k);
            }
            return Some(i);
        }
        assert(names[i as int] == releases@[i as int].name@);
        i += 1;
    }
    None
}

/// Finds the first asset that has the given name.
pub fn find_asset(assets: &Vec<Asset>, filename: &String) -> (at: Option<usize>)
    ensures
        match at {
            Some(i) => first_named(asset_names(asset_models(assets@)), filename@) == Some(i as int),
            None => first_named(asset_names(asset_models(assets@)), filename@).is_none(),
        },
{
    let ghost names = asset_names(asset_models(assets@));
    let mut i: usize = 0;
    while i < assets.len()
        invariant
            i <= assets.len(),
            names == asset_names(asset_models(assets@)),
            forall|j: int| 0 <= j < i ==> names[j] != filename@,
        decreases assets.len() - i,
    {
        if assets[i].name == *filename {
            proof {
                assert(names[i as int] == assets@[i as int].name@);
                assert(is_first_named(names, filename@, i as int));
                let k = choose|k: int| is_first_named(names, filename@, k);
                first_named_unique(names, filename@, i as int, k);
            }
            return Some(i);
        }
        assert(names[i as int] == assets@[i as int].name@);
        i += 1;
    }
    None
}

} // verus!
