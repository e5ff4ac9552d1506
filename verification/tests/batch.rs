use windows_erg::batch::fill_batch;

#[test]
fn fill_batch_keeps_accepted_items_in_order() {
    let mut out = vec![99u32];
    let n = fill_batch(&mut out, vec![1, 2, 3, 4, 5, 6], &|x: &u32| x % 2 == 0);
    assert_eq!(n, 3);
    assert_eq!(out, vec![2, 4, 6]);
    let n = fill_batch(&mut out, vec![7, 9], &|x: &u32| x % 2 == 0);
    assert_eq!(n, 0);
    assert!(out.is_empty());
    let mut names: Vec<String> = Vec::new();
    let n = fill_batch(&mut names, vec!["a".to_string(), "b".to_string()], &|s: &String| s != "a");
    assert_eq!(n, 1);
    assert_eq!(names, vec!["b".to_string()]);
}
