use command_layer::get_current_exe_path;

#[test]
fn reported_path_passes_through() {
    let response = get_current_exe_path(Ok("/usr/local/bin/app".to_string()));
    assert_eq!(response.unwrap(), "/usr/local/bin/app");
}

#[test]
fn empty_reported_path_is_an_error() {
    let response = get_current_exe_path(Ok(String::new()));
    let error = response.err().expect("an empty path must not become a success");
    assert_eq!(
        error.description(),
        "Failed to get executable path: environment reported an empty path"
    );
}

#[test]
fn refused_query_keeps_its_cause() {
    let response = get_current_exe_path(Err("permission denied".to_string()));
    assert_eq!(
        response.unwrap_err().description(),
        "Failed to get executable path: permission denied"
    );
}

#[test]
fn identical_queries_identical_answers() {
    let first = get_current_exe_path(Ok("/opt/tool".to_string()));
    let second = get_current_exe_path(Ok("/opt/tool".to_string()));
    assert_eq!(first.unwrap(), second.unwrap());

    let third = get_current_exe_path(Err("offline".to_string()));
    let fourth = get_current_exe_path(Err("offline".to_string()));
    assert_eq!(third.unwrap_err().description(), fourth.unwrap_err().description());
}

#[test]
fn never_an_empty_answer() {
    let success = get_current_exe_path(Ok("/a".to_string()));
    assert!(!success.unwrap().is_empty());

    let failure = get_current_exe_path(Err(String::new()));
    assert!(!failure.unwrap_err().description().is_empty());
}
