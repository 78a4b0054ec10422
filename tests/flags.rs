use thispc_folders::flags::{display_name, flag_from_stored, index_of, load, rows, FlagSet, FlagSetError};
use thispc_folders::folders::{folder_id, policy_subpath, FOLDER_COUNT};

fn stored(values: &[Option<&str>]) -> Vec<Option<String>> {
    values.iter().map(|v| v.map(|s| s.to_owned())).collect()
}

#[test]
fn missing_policy_loads_as_visible() {
    let fs = load(&vec![None; FOLDER_COUNT]);
    assert_eq!(fs.to_vec(), vec![true; FOLDER_COUNT]);
}

#[test]
fn hide_loads_as_hidden_and_other_text_as_visible() {
    let fs = load(&stored(&[
        Some("Hide"),
        Some("Show"),
        Some("hide"),
        Some(""),
        None,
        Some("Hide "),
        Some("Hide"),
    ]));
    assert_eq!(fs.to_vec(), vec![false, true, true, true, true, true, false]);
}

#[test]
fn decode_single_values() {
    assert!(!flag_from_stored(&Some("Hide".to_owned())));
    assert!(flag_from_stored(&Some("Show".to_owned())));
    assert!(flag_from_stored(&Some("garbage".to_owned())));
    assert!(flag_from_stored(&None));
}

#[test]
fn folder_ids_in_display_order() {
    assert_eq!(folder_id(0), "{31C0DD25-9439-4F12-BF41-7FF4EDA38722}");
    assert_eq!(folder_id(1), "{B4BFCC3A-DB2C-424C-B029-7FE99A87C641}");
    assert_eq!(folder_id(6), "{35286a68-3c57-41a1-bbb1-0eae73d76c95}");
}

#[test]
fn policy_subpath_joins_id_and_property_bag() {
    assert_eq!(policy_subpath(1), "{B4BFCC3A-DB2C-424C-B029-7FE99A87C641}\\PropertyBag");
}

#[test]
fn index_of_known_and_unknown_ids() {
    for i in 0..FOLDER_COUNT {
        assert_eq!(index_of(&folder_id(i)), Some(i));
    }
    assert_eq!(index_of(&"{00000000-0000-0000-0000-000000000000}".to_owned()), None);
    assert_eq!(index_of(&"{b4bfcc3a-db2c-424c-b029-7fe99a87c641}".to_owned()), None);
}

#[test]
fn set_by_id_changes_only_that_flag() {
    let mut fs = FlagSet::all_visible();
    assert!(fs.set_by_id(&folder_id(2), false));
    assert_eq!(fs.to_vec(), vec![true, true, false, true, true, true, true]);
    assert!(!fs.set_by_id(&"Desktop".to_owned(), false));
    assert_eq!(fs.to_vec(), vec![true, true, false, true, true, true, true]);
}

#[test]
fn set_and_get_by_position() {
    let mut fs = FlagSet::all_visible();
    fs.set(6, false);
    assert!(!fs.get(6));
    assert!(fs.get(5));
}

#[test]
fn from_flags_needs_one_flag_per_folder() {
    assert!(FlagSet::from_flags(vec![true; 6]).is_none());
    assert!(FlagSet::from_flags(vec![true; 8]).is_none());
    let fs = FlagSet::from_flags(vec![false, true, false, true, false, true, false]).unwrap();
    assert_eq!(fs.to_vec(), vec![false, true, false, true, false, true, false]);
}

#[test]
fn display_name_falls_back_to_id() {
    assert_eq!(display_name(1, Some("Desktop".to_owned())), "Desktop");
    assert_eq!(display_name(1, None), "{B4BFCC3A-DB2C-424C-B029-7FE99A87C641}");
}

#[test]
fn rows_pair_ids_names_and_flags() {
    let mut fs = FlagSet::all_visible();
    fs.set(1, false);
    let names = vec![
        Some("3D Objects".to_owned()),
        Some("Desktop".to_owned()),
        None,
        Some("Downloads".to_owned()),
        Some("Music".to_owned()),
        Some("Pictures".to_owned()),
        Some("Videos".to_owned()),
    ];
    let r = rows(&fs, names);
    assert_eq!(r.len(), FOLDER_COUNT);
    assert_eq!(r[0].name, "3D Objects");
    assert_eq!(r[1].id, folder_id(1));
    assert_eq!(r[1].name, "Desktop");
    assert!(!r[1].shown);
    assert_eq!(r[2].name, folder_id(2));
    assert!(r[2].shown);
}

fn pairs(order: &[usize], shown: &[bool]) -> Vec<(String, bool)> {
    order.iter().zip(shown).map(|(&i, &b)| (folder_id(i), b)).collect()
}

#[test]
fn from_pairs_accepts_any_order() {
    let p = pairs(&[6, 5, 4, 3, 2, 1, 0], &[true, false, true, true, false, true, false]);
    let fs = FlagSet::from_pairs(&p).unwrap();
    assert_eq!(fs.to_vec(), vec![false, true, false, true, true, false, true]);
}

#[test]
fn from_pairs_rejects_unknown_id() {
    let mut p = pairs(&[0, 1, 2, 3, 4, 5, 6], &[true; 7]);
    p.insert(2, ("{00000000-0000-0000-0000-000000000000}".to_owned(), true));
    assert_eq!(FlagSet::from_pairs(&p).err(), Some(FlagSetError::UnknownId { position: 2 }));
}

#[test]
fn from_pairs_rejects_duplicate_id() {
    let p = pairs(&[0, 1, 2, 1, 3, 4, 5, 6], &[true; 8]);
    assert_eq!(FlagSet::from_pairs(&p).err(), Some(FlagSetError::DuplicateId { position: 3 }));
}

#[test]
fn from_pairs_rejects_missing_id() {
    let p = pairs(&[0, 1, 2, 4, 5, 6], &[true; 6]);
    assert_eq!(FlagSet::from_pairs(&p).err(), Some(FlagSetError::MissingId { item: 3 }));
    assert_eq!(FlagSet::from_pairs(&Vec::new()).err(), Some(FlagSetError::MissingId { item: 0 }));
}
