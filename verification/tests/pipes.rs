use baton::pipes::filter_pipes;
use baton::pipes::EnumeratedPipe;

#[test]
fn test_filter_pipes_no_pattern() {
    let pipes = vec![
        EnumeratedPipe { name: "docker_engine".to_string() },
        EnumeratedPipe { name: "gpg-agent".to_string() },
    ];
    let filtered = filter_pipes(pipes, None).unwrap();
    assert_eq!(filtered.len(), 2);
}

#[test]
fn test_filter_pipes_glob_pattern() {
    let pipes = vec![
        EnumeratedPipe { name: "docker_engine".to_string() },
        EnumeratedPipe { name: "docker_proxy".to_string() },
        EnumeratedPipe { name: "gpg-agent".to_string() },
    ];
    let filtered = filter_pipes(pipes, Some("docker_*")).unwrap();
    assert_eq!(filtered.len(), 2);
    assert!(filtered.iter().any(|p| p.name == "docker_engine"));
    assert!(filtered.iter().any(|p| p.name == "docker_proxy"));
}

#[test]
fn test_filter_pipes_question_mark() {
    let pipes = vec![
        EnumeratedPipe { name: "agent".to_string() },
        EnumeratedPipe { name: "agents".to_string() },
    ];
    let filtered = filter_pipes(pipes, Some("agent?")).unwrap();
    assert_eq!(filtered.len(), 1);
    assert_eq!(filtered[0].name, "agents");
}

#[test]
fn test_filter_pipes_no_matches() {
    let pipes = vec![
        EnumeratedPipe { name: "docker_engine".to_string() },
        EnumeratedPipe { name: "gpg-agent".to_string() },
    ];
    let filtered = filter_pipes(pipes, Some("mysql_*")).unwrap();
    assert_eq!(filtered.len(), 0);
}

#[test]
fn test_filter_pipes_invalid_pattern() {
    let pipes = vec![EnumeratedPipe { name: "docker_engine".to_string() }];
    let result = filter_pipes(pipes, Some("[invalid"));
    assert!(result.is_err());
}

#[test]
fn test_filter_pipes_invalid_pattern_empty_list() {
    let result = filter_pipes(Vec::new(), Some("[invalid"));
    assert!(result.is_err());
}

#[test]
fn test_filter_pipes_keeps_order() {
    let pipes = vec![
        EnumeratedPipe { name: "b_pipe".to_string() },
        EnumeratedPipe { name: "a_pipe".to_string() },
        EnumeratedPipe { name: "c_other".to_string() },
    ];
    let filtered = filter_pipes(pipes, Some("*_pipe")).unwrap();
    let names: Vec<&str> = filtered.iter().map(|p| p.name.as_str()).collect();
    assert_eq!(names, vec!["b_pipe", "a_pipe"]);
}
