use winix::pipeline::{CatGrepPipeline, CatHeadPipeline, Pipeline};

#[test]
fn cat_grep_keeps_files_and_pattern() {
    let p = CatGrepPipeline::new(vec!["a.txt".to_string(), "b.txt".to_string()], "hello".to_string());
    assert_eq!(p.files(), &vec!["a.txt".to_string(), "b.txt".to_string()]);
    assert_eq!(p.pattern(), "hello");
}

#[test]
fn cat_head_keeps_files_and_lines() {
    let p = CatHeadPipeline::new(vec!["a.txt".to_string()], 3);
    assert_eq!(p.files(), &vec!["a.txt".to_string()]);
    assert_eq!(p.lines(), 3);
}

#[test]
fn pipeline_keeps_both_commands_in_order() {
    let p = Pipeline::new(
        CatHeadPipeline::new(vec!["a.txt".to_string()], 1),
        CatGrepPipeline::new(Vec::new(), "x".to_string()),
    );
    assert_eq!(p.first().lines(), 1);
    assert_eq!(p.second().pattern(), "x");
    let (first, second) = p.into_parts();
    assert_eq!(first.files().len(), 1);
    assert_eq!(second.files().len(), 0);
}
