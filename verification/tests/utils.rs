use yetalauncher::utils::{is_maven_coordinate, maven_identifier_to_path, path_join, split_vec_into};

#[test]
fn maven_path_of_plain_coordinate() {
    assert!(is_maven_coordinate("group:artifact:1.0"));
    assert_eq!(maven_identifier_to_path("group:artifact:1.0"), "group/artifact/1.0/artifact-1.0.jar");
}

#[test]
fn maven_path_with_classifier_and_extension() {
    assert_eq!(
        maven_identifier_to_path("net.minecraftforge:forge:1.20.1-47.2.0:universal@zip"),
        "net/minecraftforge/forge/1.20.1-47.2.0/forge-1.20.1-47.2.0-universal.zip"
    );
}

#[test]
fn maven_coordinate_needs_two_colons() {
    assert!(!is_maven_coordinate("group:artifact"));
    assert!(!is_maven_coordinate("group@a:b:c"));
}

#[test]
fn path_join_cases() {
    assert_eq!(path_join("/data", "libraries"), "/data/libraries");
    assert_eq!(path_join("/data/", "libraries"), "/data/libraries");
    assert_eq!(path_join("/data", "/abs"), "/abs");
    assert_eq!(path_join("", "rel"), "rel");
}

#[test]
fn split_is_balanced() {
    let shards = split_vec_into(vec![1, 2, 3, 4, 5, 6, 7, 8, 9, 10], 4);
    assert_eq!(shards, vec![vec![1, 2, 3], vec![4, 5, 6], vec![7, 8], vec![9, 10]]);
}

#[test]
fn split_into_more_shards_than_items() {
    let shards = split_vec_into(vec![1, 2], 4);
    assert_eq!(shards, vec![vec![1], vec![2], vec![], vec![]]);
}

#[test]
fn split_into_no_shards() {
    let shards: Vec<Vec<u8>> = split_vec_into(vec![1, 2], 0);
    assert!(shards.is_empty());
}
