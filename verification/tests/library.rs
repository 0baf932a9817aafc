use voutil::library::{
    arrange_thumbnails, is_heif_extension, is_supported_extension, sort_plan, supported_extension_list,
    window_title, SortKey, SortPlan,
};
use voutil::sorting::sort_listing;

fn strings(v: &[&str]) -> Vec<String> {
    v.iter().map(|s| s.to_string()).collect()
}

fn names(v: &[&str]) -> Vec<Vec<u8>> {
    v.iter().map(|s| s.as_bytes().to_vec()).collect()
}

#[test]
fn listed_extensions() {
    assert_eq!(supported_extension_list().len(), 23);
    assert!(is_supported_extension("png"));
    assert!(is_supported_extension("JPG"));
    assert!(is_supported_extension("Heic"));
    assert!(is_supported_extension("farbfeld"));
    assert!(!is_supported_extension("txt"));
    assert!(!is_supported_extension(""));
    assert!(is_heif_extension("HEIF"));
    assert!(is_heif_extension("HeIf"));
    assert!(is_heif_extension("heic"));
    assert!(!is_heif_extension("avif"));
}

#[test]
fn sort_plans() {
    assert_eq!(sort_plan(true, "Size", "Descending"), SortPlan { key: SortKey::Name, descending: false });
    assert_eq!(sort_plan(false, "Size", "Descending"), SortPlan { key: SortKey::Size, descending: true });
    assert_eq!(sort_plan(false, "Modified time", "Ascending"), SortPlan { key: SortKey::ModifiedTime, descending: false });
    assert_eq!(sort_plan(false, "Created time", "Ascending"), SortPlan { key: SortKey::CreatedTime, descending: false });
    assert_eq!(sort_plan(false, "Whatever", "descending"), SortPlan { key: SortKey::Name, descending: false });
    assert_eq!(sort_plan(false, "Name", "Descending"), SortPlan { key: SortKey::Name, descending: true });
}

#[test]
fn window_titles() {
    assert_eq!(window_title(Some("cat.png")), "cat.png - Voutil");
    assert_eq!(window_title(None), "Voutil");
}

#[test]
fn thumbnails_follow_the_listing() {
    let listed = strings(&["/p/a.png", "/p/b.png", "/p/c.png"]);
    let arrived = strings(&["/p/c.png", "/p/a.png", "/p/x.png", "/p/a.png"]);
    assert_eq!(arrange_thumbnails(&listed, &arrived), vec![3, 0]);
    assert_eq!(arrange_thumbnails(&strings(&["a", "a"]), &strings(&["a"])), vec![0]);
    assert_eq!(arrange_thumbnails(&listed, &Vec::new()), Vec::<usize>::new());
    assert_eq!(arrange_thumbnails(&Vec::new(), &arrived), Vec::<usize>::new());
}

#[test]
fn listing_by_name() {
    let plan = SortPlan { key: SortKey::Name, descending: false };
    let n = names(&["b.png", "a.png", "ab.png", "a"]);
    assert_eq!(sort_listing(&n, &vec![0; 4], plan), vec![3, 1, 2, 0]);
    let down = SortPlan { key: SortKey::Name, descending: true };
    assert_eq!(sort_listing(&n, &vec![0; 4], down), vec![0, 2, 1, 3]);
    // Upper case sorts before lower case, byte by byte.
    assert_eq!(sort_listing(&names(&["b", "B", "a"]), &vec![0; 3], plan), vec![1, 2, 0]);
}

#[test]
fn listing_by_key_is_stable() {
    let n = names(&["a", "b", "c", "d"]);
    let keys: Vec<i128> = vec![5, 1, 5, -3];
    let up = SortPlan { key: SortKey::Size, descending: false };
    assert_eq!(sort_listing(&n, &keys, up), vec![3, 1, 0, 2]);
    let down = SortPlan { key: SortKey::ModifiedTime, descending: true };
    assert_eq!(sort_listing(&n, &keys, down), vec![2, 0, 1, 3]);
    assert_eq!(sort_listing(&Vec::new(), &Vec::new(), up), Vec::<usize>::new());
}
