//! The fixed, ordered set of managed folders and the store layout around them.
use vstd::prelude::*;
use vstd::string::StringExecFns;

verus! {

/// Number of managed folders.
pub const FOLDER_COUNT: usize = 7;

/// Index of the folder whose visibility is mirrored by the companion key.
pub const COMPANION_ITEM: usize = 0;

/// Store path, under the machine root, that holds one sub-path per folder.
pub const BASE_PATH: &'static str = "SOFTWARE\\Microsoft\\Windows\\CurrentVersion\\Explorer\\FolderDescriptions";

/// Sub-path, below a folder's own path, that holds its policy value.
pub const POLICY_SUBKEY: &'static str = "PropertyBag";

/// Name of the stored policy value.
pub const POLICY_VALUE_NAME: &'static str = "ThisPCPolicy";

/// Name of the value, under a folder's own path, that holds its display name.
pub const DISPLAY_NAME_VALUE: &'static str = "Name";

/// Store path, under the machine root, whose existence mirrors the companion folder.
pub const COMPANION_PATH: &'static str = "SOFTWARE\\Microsoft\\Windows\\CurrentVersion\\Explorer\\MyComputer\\NameSpace\\{0DB7E03F-FC29-4DC6-9020-FF41B59E513A}";

/// Stored text for a shown folder.
pub const SHOW_TEXT: &'static str = "Show";

/// Stored text for a hidden folder.
pub const HIDE_TEXT: &'static str = "Hide";

/// The identifier of each managed folder, in display order.
pub open spec fn folder_id_spec(i: int) -> Seq<char> {
    if i == 0 {
        "{31C0DD25-9439-4F12-BF41-7FF4EDA38722}"@
    } else if i == 1 {
        "{B4BFCC3A-DB2C-424C-B029-7FE99A87C641}"@
    } else if i == 2 {
        "{f42ee2d3-909f-4907-8871-4c22fc0bf756}"@
    } else if i == 3 {
        "{7d83ee9b-2244-4e70-b1f5-5393042af1e4}"@
    } else if i == 4 {
        "{a0c69a99-21c8-4671-8703-7934162fcf1d}"@
    } else if i == 5 {
        "{0ddd015d-b06c-45d5-8c4c-f59713854639}"@
    } else {
        "{35286a68-3c57-41a1-bbb1-0eae73d76c95}"@
    }
}

/// Identifier of the folder at position `i` (3D Objects, Desktop, Documents,
/// Downloads, Music, Pictures, Videos).
pub fn folder_id(i: usize) -> (r: String)
    requires
        i < FOLDER_COUNT,
    ensures
        r@ == folder_id_spec(i as int),
{
    let s: &str = if i == 0 {
        "{31C0DD25-9439-4F12-BF41-7FF4EDA38722}"
    } else if i == 1 {
        "{B4BFCC3A-DB2C-424C-B029-7FE99A87C641}"
    } else if i == 2 {
        "{f42ee2d3-909f-4907-8871-4c22fc0bf756}"
    } else if i == 3 {
        "{7d83ee9b-2244-4e70-b1f5-5393042af1e4}"
    } else if i == 4 {
        "{a0c69a99-21c8-4671-8703-7934162fcf1d}"
    } else if i == 5 {
        "{0ddd015d-b06c-45d5-8c4c-f59713854639}"
    } else {
        "{35286a68-3c57-41a1-bbb1-0eae73d76c95}"
    };
    s.to_owned()
}

/// Separator between the segments of a store path.
pub const PATH_SEPARATOR: &'static str = "\\";

/// Path, relative to `BASE_PATH`, that holds the policy value of the folder at
/// position `i`: its identifier, then `POLICY_SUBKEY`.
pub fn policy_subpath(i: usize) -> (r: String)
    requires
        i < FOLDER_COUNT,
    ensures
        r@ == folder_id_spec(i as int) + PATH_SEPARATOR@ + POLICY_SUBKEY@,
{
    let mut path = folder_id(i);
    path.append(PATH_SEPARATOR);
    path.append(POLICY_SUBKEY);
    path
}

} // verus!
