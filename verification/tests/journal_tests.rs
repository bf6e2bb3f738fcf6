use zenou_tweaks::journal::{newest_first, AppPaths};

#[test]
fn records_are_listed_newest_first() {
    assert_eq!(newest_first(&vec![10, 30, 20]), vec![1, 2, 0]);
    assert_eq!(newest_first(&vec![5, 7, 5, 7]), vec![1, 3, 0, 2]);
    assert_eq!(newest_first(&vec![-1, i128::MAX, i128::MIN]), vec![1, 0, 2]);
    assert!(newest_first(&Vec::new()).is_empty());
}

#[test]
fn data_folders_live_under_the_root() {
    let p = AppPaths { root: "C:\\Data\\ZenouTweaks".to_string() };
    assert_eq!(p.backups(), "C:\\Data\\ZenouTweaks\\backups");
    assert_eq!(p.logs(), "C:\\Data\\ZenouTweaks\\logs");
    assert_eq!(p.changes(), "C:\\Data\\ZenouTweaks\\changes");
    assert_eq!(p.settings(), "C:\\Data\\ZenouTweaks\\settings.json");
    let slash = AppPaths { root: "C:\\Data\\".to_string() };
    assert_eq!(slash.backups(), "C:\\Data\\backups");
}
