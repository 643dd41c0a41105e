use hyped::debugger::{extract_bin_path_from_logs, BinPathError};

#[test]
fn finds_the_executable_path() {
    let log = "{\"reason\":\"compiler-artifact\",\"executable\":null}\n\
        {\"reason\":\"compiler-artifact\",\"executable\":\"/work/target/thumbv7em-none-eabihf/release/board\",\"fresh\":false}\n";
    assert_eq!(
        extract_bin_path_from_logs(log),
        Ok(String::from("/work/target/thumbv7em-none-eabihf/release/board"))
    );
}

#[test]
fn takes_the_first_executable() {
    let log = "\"executable\":\"a\" \"executable\":\"b\"";
    assert_eq!(extract_bin_path_from_logs(log), Ok(String::from("a")));
}

#[test]
fn empty_path_is_allowed() {
    assert_eq!(extract_bin_path_from_logs("\"executable\":\"\""), Ok(String::new()));
}

#[test]
fn missing_executable() {
    assert_eq!(
        extract_bin_path_from_logs("{\"executable\":null}"),
        Err(BinPathError::ExecutableNotFound)
    );
    assert_eq!(extract_bin_path_from_logs(""), Err(BinPathError::ExecutableNotFound));
}

#[test]
fn unterminated_executable() {
    assert_eq!(
        extract_bin_path_from_logs("x\"executable\":\"/tmp/board"),
        Err(BinPathError::ExecutableEndNotFound)
    );
}
