use keste_persist::staging::staging_path;

#[test]
fn staging_path_appends_the_suffix() {
    assert_eq!(staging_path("/tmp/out.db"), "/tmp/out.db.tmp");
    assert_eq!(staging_path(""), ".tmp");
}

#[test]
fn staging_paths_of_different_destinations_differ() {
    assert_ne!(staging_path("a.kst"), staging_path("b.kst"));
    assert_ne!(staging_path("a.kst"), "a.kst");
}
