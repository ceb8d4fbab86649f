use bootc_bridge::outcome::Outcome;

#[test]
fn ok_becomes_success() {
    assert_eq!(Outcome::from_result(Ok(())), Outcome::Success);
}

#[test]
fn error_becomes_failure_with_its_message() {
    let error = anyhow::Error::msg("unrecognized subcommand");
    assert_eq!(
        Outcome::from_result(Err(error)),
        Outcome::Failure(String::from("unrecognized subcommand"))
    );
}

#[test]
fn failure_carries_the_chain_of_causes_outermost_first() {
    let error = anyhow::Error::msg("disk full")
        .context("writing image")
        .context("deploying");
    assert_eq!(
        Outcome::from_result(Err(error)),
        Outcome::Failure(String::from("deploying: writing image: disk full"))
    );
}

#[test]
fn failure_of_a_standard_error_carries_its_text() {
    let cause = std::io::Error::new(std::io::ErrorKind::Other, "too many open files");
    let error = anyhow::Error::new(cause).context("building the task runner");
    assert_eq!(
        Outcome::from_result(Err(error)),
        Outcome::Failure(String::from("building the task runner: too many open files"))
    );
}

#[test]
fn failure_with_an_empty_message_has_an_empty_description() {
    let error = anyhow::Error::msg("");
    assert_eq!(Outcome::from_result(Err(error)), Outcome::Failure(String::new()));
}
