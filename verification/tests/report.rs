use create_directus_app::plan::Step;
use create_directus_app::report::{report, Message, Outcome, Stage, Stream};

fn dir(path: &str) -> Step {
    Step::CreateDir { path: path.to_string() }
}

fn file(path: &str) -> Step {
    Step::WriteFile { path: path.to_string(), content: "text".to_string() }
}

fn failed(stage: Stage, reason: &str) -> Outcome {
    Outcome::Failed { stage, reason: reason.to_string() }
}

fn line(stream: Stream, text: &str) -> Message {
    Message { stream, text: text.to_string() }
}

#[test]
fn a_created_directory_is_announced() {
    assert_eq!(
        report(&dir("my_app/database"), &Outcome::Done),
        line(Stream::Output, "Created directory: my_app/database")
    );
}

#[test]
fn a_written_file_is_announced() {
    assert_eq!(
        report(&file("my_app/.env"), &Outcome::Done),
        line(Stream::Output, "Created file: my_app/.env")
    );
}

#[test]
fn a_directory_that_could_not_be_created_is_reported_as_an_error() {
    assert_eq!(
        report(&dir("my_app/uploads"), &failed(Stage::Create, "Permission denied (os error 13)")),
        line(
            Stream::Error,
            "Failed to create directory my_app/uploads: Permission denied (os error 13)"
        )
    );
}

#[test]
fn a_directory_has_one_stage_only() {
    assert_eq!(
        report(&dir("d"), &failed(Stage::Write, "why")),
        line(Stream::Error, "Failed to create directory d: why")
    );
}

#[test]
fn a_file_that_could_not_be_created_is_reported_as_an_error() {
    assert_eq!(
        report(
            &file("my_app/.env.example"),
            &failed(Stage::Create, "No such file or directory (os error 2)")
        ),
        line(
            Stream::Error,
            "Failed to create file my_app/.env.example: No such file or directory (os error 2)"
        )
    );
}

#[test]
fn a_file_that_could_not_be_filled_is_reported_as_an_error() {
    assert_eq!(
        report(
            &file("my_app/docker-compose.yml"),
            &failed(Stage::Write, "No space left on device (os error 28)")
        ),
        line(
            Stream::Error,
            "Failed to write to file my_app/docker-compose.yml: No space left on device (os error 28)"
        )
    );
}

#[test]
fn a_failure_without_a_reason_still_ends_in_colon_and_space() {
    assert_eq!(
        report(&file("f"), &failed(Stage::Create, "")),
        line(Stream::Error, "Failed to create file f: ")
    );
}

#[test]
fn the_line_does_not_depend_on_what_a_file_step_writes() {
    let short = Step::WriteFile { path: "p".to_string(), content: String::new() };
    let long = Step::WriteFile { path: "p".to_string(), content: "a\nb\n".to_string() };
    assert_eq!(report(&short, &Outcome::Done), report(&long, &Outcome::Done));
}

#[test]
fn paths_and_reasons_are_taken_as_they_come() {
    assert_eq!(
        report(&dir(""), &failed(Stage::Create, "cannot: really")),
        line(Stream::Error, "Failed to create directory : cannot: really")
    );
    assert_eq!(
        report(&dir("\u{e9}t\u{e9}/data"), &Outcome::Done),
        line(Stream::Output, "Created directory: \u{e9}t\u{e9}/data")
    );
}
