use chord2key::attribute_set::{AttributeSet, SubsetError};

/// The original dedup check: six items with repeats collapse onto three
/// dense indices, the largest being 2.
#[test]
fn duplicates() {
    let vec_set = vec![5, 5, 5, 5, 2, 4];
    let size = vec_set.len();
    let set = AttributeSet::<i32>::from_capacity(vec_set, size, 0);
    let mut max_index = 0;
    for item in set.iter() {
        let index = set.index_of(item).unwrap();
        if index > max_index {
            max_index = index;
        }
    }
    assert_eq!(max_index, 2);
}

/// Universe determinism: every distinct item gets exactly one index in
/// `[0, n)`, with `n` the number of distinct items.
#[test]
fn universe_assigns_dense_indices() {
    let set = AttributeSet::<i32>::from(vec![7, 7, 3, 9, 3, 11], 1);
    assert_eq!(set.len(), 4);
    for item in [7, 3, 9, 11] {
        let index = set.index_of(&item).unwrap();
        assert!(index < 4);
    }
    assert!(set.contains(&7));
    assert!(!set.contains(&8));
    assert_eq!(set.index_of(&8), None);
}

/// try_insert succeeds if and only if the item is a member of the bound
/// universe; a non-member is reported, never a panic.
#[test]
fn try_insert_totality() {
    let set = AttributeSet::<i32>::from(vec![5, 2, 4], 2);
    let mut subset = set.empty_subset();
    assert!(subset.try_insert(&5).is_ok());
    assert_eq!(subset.try_insert(&3), Err(SubsetError::NotMember));
    assert!(subset.contains(&5));
    assert!(!subset.contains(&3));
}

/// Subsets of one universe instance with the same items are equal whatever
/// the insertion order; subsets of separately constructed universes over
/// value-identical data are never equal.
#[test]
fn subset_identity_equality() {
    let set1 = AttributeSet::<i32>::from(vec![5, 9, 12], 10);
    let set2 = AttributeSet::<i32>::from(vec![5, 9, 12], 11);

    let forwards = set1.subset_with(vec![5, 9]);
    let backwards = set1.subset_with(vec![9, 5]);
    assert!(forwards.equals(&backwards));
    assert!(backwards.equals(&forwards));

    let other_instance = set2.subset_with(vec![5, 9]);
    assert!(!forwards.equals(&other_instance));

    let different_items = set1.subset_with(vec![5, 12]);
    assert!(!forwards.equals(&different_items));
}

/// Bulk construction silently drops non-members.
#[test]
fn subset_with_drops_non_members() {
    let set = AttributeSet::<i32>::from(vec![5, 2, 4], 3);
    let subset = set.subset_with(vec![5, 100, 2]);
    assert!(subset.contains(&5));
    assert!(subset.contains(&2));
    assert!(!subset.contains(&4));
    assert_eq!(subset.items().len(), 2);
}

/// remove drops a held item and ignores a non-member; clear empties the
/// subset.
#[test]
fn subset_remove_and_clear() {
    let set = AttributeSet::<i32>::from(vec![5, 2, 4], 4);
    let mut subset = set.subset_with(vec![5, 2]);
    subset.remove(&5);
    assert!(!subset.contains(&5));
    assert!(subset.contains(&2));
    subset.remove(&77);
    assert!(subset.contains(&2));
    subset.clear();
    assert!(!subset.contains(&2));
    assert_eq!(subset.items().len(), 0);
}

/// copy_from copies bits within one universe instance and fails, changing
/// nothing, across different instances.
#[test]
fn copy_from_universe_check() {
    let set = AttributeSet::<i32>::from(vec![5, 2, 4], 5);
    let other_set = AttributeSet::<i32>::from(vec![5, 2, 4], 6);

    let source = set.subset_with(vec![5, 4]);
    let mut target = set.empty_subset();
    assert!(target.copy_from(&source).is_ok());
    assert!(target.contains(&5));
    assert!(target.contains(&4));
    assert!(!target.contains(&2));

    let mut foreign = other_set.empty_subset();
    assert_eq!(foreign.copy_from(&source), Err(SubsetError::MismatchedUniverse));
    assert!(!foreign.contains(&5));
}

/// Equal subsets hash identically: the hash input is the universe id and
/// the bits, both of which equal subsets share.
#[test]
fn equal_subsets_list_equal_items() {
    let set = AttributeSet::<i32>::from(vec![8, 6, 4], 7);
    let one = set.subset_with(vec![4, 8]);
    let two = set.subset_with(vec![8, 4]);
    assert!(one.equals(&two));
    assert_eq!(one.items(), two.items());
}
