use imagetool::rename::build_candidate;
use imagetool::rename::join_path;
use imagetool::rename::pick_free_name;
use imagetool::rename::plan_rename_batch;
use imagetool::rename::RenameRequest;

fn req(original: &str, category: &str, exists: bool) -> RenameRequest {
    RenameRequest {
        original: original.to_string(),
        directory: "dir".to_string(),
        category: category.to_string(),
        extension: "tif".to_string(),
        exists,
        fingerprint: "AAAAAA".to_string(),
    }
}

#[test]
fn candidate_names() {
    assert_eq!(build_candidate("card", 1, "AAAAAA", "tif", 0), "card-1_AAAAAA.tif");
    assert_eq!(build_candidate("card", 12, "AAAAAA", "tif", 3), "card-12_AAAAAA_3.tif");
}

#[test]
fn join_paths() {
    assert_eq!(join_path("d", "n.tif"), "d/n.tif");
    assert_eq!(join_path("", "n.tif"), "n.tif");
}

#[test]
fn pick_takes_provisional_name_when_free() {
    let used: Vec<String> = vec!["other.tif".to_string()];
    assert_eq!(pick_free_name("card", 1, "AAAAAA", "tif", &used), "card-1_AAAAAA.tif");
}

#[test]
fn pick_appends_lowest_free_counter() {
    let used: Vec<String> = vec![
        "card-1_AAAAAA.tif".to_string(),
        "card-1_AAAAAA_1.tif".to_string(),
    ];
    assert_eq!(pick_free_name("card", 1, "AAAAAA", "tif", &used), "card-1_AAAAAA_2.tif");
}

#[test]
fn three_colliding_requests_get_distinct_existing_names() {
    // All three provisional names are already taken; each request
    // must still come out with its own fresh name, in batch order.
    let requests = vec![req("a.tif", "card", true), req("b.tif", "card", true), req(
        "c.tif", "card", true,
    )];
    let taken: Vec<String> = vec![
        "card-1_AAAAAA.tif".to_string(),
        "card-2_AAAAAA.tif".to_string(),
        "card-3_AAAAAA.tif".to_string(),
    ];
    let results = plan_rename_batch(&requests, &taken);
    assert_eq!(results.len(), 3);
    assert_eq!(results[0].original, "a.tif");
    assert_eq!(results[1].original, "b.tif");
    assert_eq!(results[2].original, "c.tif");
    assert_eq!(results[0].final_name, "card-1_AAAAAA_1.tif");
    assert_eq!(results[1].final_name, "card-2_AAAAAA_1.tif");
    assert_eq!(results[2].final_name, "card-3_AAAAAA_1.tif");
    assert!(results[0].final_name != results[1].final_name);
    assert!(results[1].final_name != results[2].final_name);
    assert!(results[0].final_name != results[2].final_name);
    for r in &results {
        assert!(!taken.contains(&r.final_name));
        assert_eq!(r.final_path, format!("dir/{}", r.final_name));
    }
}

#[test]
fn identical_twins_in_one_batch_stay_distinct() {
    // Same category, same fingerprint: the batch position alone
    // keeps the names apart.
    let requests = vec![req("a.tif", "photo", true), req("b.tif", "photo", true)];
    let taken: Vec<String> = Vec::new();
    let results = plan_rename_batch(&requests, &taken);
    assert_eq!(results[0].final_name, "photo-1_AAAAAA.tif");
    assert_eq!(results[1].final_name, "photo-2_AAAAAA.tif");
}

#[test]
fn missing_sources_are_skipped_but_keep_their_position() {
    let requests = vec![req("a.tif", "card", true), req("gone.tif", "card", false), req(
        "c.tif", "card", true,
    )];
    let taken: Vec<String> = Vec::new();
    let results = plan_rename_batch(&requests, &taken);
    assert_eq!(results.len(), 2);
    assert_eq!(results[0].final_name, "card-1_AAAAAA.tif");
    assert_eq!(results[1].final_name, "card-3_AAAAAA.tif");
    assert_eq!(results[1].original, "c.tif");
}

#[test]
fn empty_batch_plans_nothing() {
    let requests: Vec<RenameRequest> = Vec::new();
    let taken: Vec<String> = Vec::new();
    assert_eq!(plan_rename_batch(&requests, &taken).len(), 0);
}
