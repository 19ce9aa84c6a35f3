use file_tools::copy_file::{plan, settle, CopyRequest};
use file_tools::status::{conclude, Exit, Failure};

fn args(words: &[&str]) -> Vec<String> {
    words.iter().map(|word| word.to_string()).collect()
}

fn usage(program: &str) -> Failure {
    Failure::Usage { program: program.to_string() }
}

#[test]
fn two_paths_plan_a_copy_from_the_first_to_the_second() {
    assert_eq!(
        plan(&args(&["copy_file", "notes.txt", "backup/notes.txt"])),
        Ok(CopyRequest {
            source: "notes.txt".to_string(),
            destination: "backup/notes.txt".to_string(),
        })
    );
}

#[test]
fn no_path_is_a_usage_failure() {
    assert_eq!(plan(&args(&["copy_file"])), Err(usage("copy_file")));
}

#[test]
fn an_empty_argument_vector_is_a_usage_failure() {
    let planned = plan(&Vec::new());
    assert_eq!(planned, Err(usage("")));
    assert_eq!(
        conclude(&planned.map(|_| ())),
        Exit { code: 2, diagnostic: Some("Usage:  <source> <destination>".to_string()) }
    );
}

#[test]
fn one_path_is_a_usage_failure() {
    assert_eq!(plan(&args(&["copy_file", "notes.txt"])), Err(usage("copy_file")));
}

#[test]
fn three_paths_are_a_usage_failure() {
    assert_eq!(plan(&args(&["copy_file", "a", "b", "c"])), Err(usage("copy_file")));
}

#[test]
fn many_paths_are_a_usage_failure() {
    let mut words = vec!["/usr/local/bin/copy_file"];
    words.extend(std::iter::repeat("x").take(40));
    assert_eq!(plan(&args(&words)), Err(usage("/usr/local/bin/copy_file")));
}

#[test]
fn wrong_argument_count_ends_with_status_two_and_plans_nothing() {
    for count in [0usize, 1, 3, 4, 9] {
        let mut words = vec!["cp"];
        words.extend(std::iter::repeat("path").take(count));
        let planned = plan(&args(&words));
        assert!(planned.is_err());
        let exit = conclude(&planned.map(|_| ()));
        assert_eq!(
            exit,
            Exit { code: 2, diagnostic: Some("Usage: cp <source> <destination>".to_string()) }
        );
    }
}

#[test]
fn paths_are_passed_on_as_given() {
    assert_eq!(
        plan(&args(&["cp", "", " a b "])),
        Ok(CopyRequest { source: String::new(), destination: " a b ".to_string() })
    );
    assert_eq!(
        plan(&args(&["cp", "--help", "-"])),
        Ok(CopyRequest { source: "--help".to_string(), destination: "-".to_string() })
    );
}

#[test]
fn source_and_destination_may_be_the_same_path() {
    assert_eq!(
        plan(&args(&["cp", "same.txt", "same.txt"])),
        Ok(CopyRequest { source: "same.txt".to_string(), destination: "same.txt".to_string() })
    );
}

#[test]
fn a_copy_that_succeeded_settles_as_success() {
    assert_eq!(settle(Ok(())), Ok(()));
}

#[test]
fn a_copy_that_failed_settles_as_a_copy_failure() {
    assert_eq!(
        settle(Err("Permission denied (os error 13)".to_string())),
        Err(Failure::Copy { reason: "Permission denied (os error 13)".to_string() })
    );
}

#[test]
fn copying_hello_to_a_new_file_ends_with_status_zero() {
    let request = plan(&args(&["copy_file", "hello.txt", "fresh.txt"])).unwrap();
    assert_eq!(request.source, "hello.txt");
    assert_eq!(request.destination, "fresh.txt");
    let exit = conclude(&settle(Ok(())));
    assert_eq!(exit, Exit { code: 0, diagnostic: None });
}

#[test]
fn a_missing_source_ends_with_status_one() {
    let planned = plan(&args(&["copy_file", "missing.txt", "fresh.txt"]));
    assert!(planned.is_ok());
    let exit = conclude(&settle(Err("No such file or directory (os error 2)".to_string())));
    assert_eq!(
        exit,
        Exit {
            code: 1,
            diagnostic: Some("Copy failed: No such file or directory (os error 2)".to_string()),
        }
    );
}

#[test]
fn a_missing_destination_directory_ends_with_status_one() {
    let exit = conclude(&settle(Err("Not a directory (os error 20)".to_string())));
    assert_eq!(exit.code, 1);
    assert_eq!(exit.diagnostic, Some("Copy failed: Not a directory (os error 20)".to_string()));
}
