use spade_docker::errors::ProtocolFailure;
use spade_docker::extract::extract;

#[test]
fn single_marker_line_yields_hash() {
    let output = "#12 writing image sha256:abc123 done";
    assert_eq!(extract(output), Ok(String::from("abc123")));
}

#[test]
fn marker_line_among_noise_yields_hash() {
    let output = "#1 building\n#2 step\n#12 writing image sha256:abc123 done\n#13 naming";
    assert_eq!(extract(output), Ok(String::from("abc123")));
}

#[test]
fn no_marker_line_fails_with_no_image() {
    let output = "#1 building\n#2 exporting layers\n#3 naming";
    assert_eq!(extract(output), Err(ProtocolFailure::NoImage));
}

#[test]
fn empty_output_fails_with_no_image() {
    assert_eq!(extract(""), Err(ProtocolFailure::NoImage));
}

#[test]
fn last_marker_line_wins() {
    let output = "#5 writing image sha256:abc123 done\n#9 writing image sha256:def456 done";
    assert_eq!(extract(output), Ok(String::from("def456")));
}

#[test]
fn first_identifier_token_of_the_line_wins() {
    let output = "#7 writing image sha256:abc123 sha256:def456";
    assert_eq!(extract(output), Ok(String::from("abc123")));
}

#[test]
fn identifier_token_is_trimmed() {
    let output = "#7 writing image sha256:abc123\r";
    assert_eq!(extract(output), Ok(String::from("abc123")));
}

#[test]
fn marker_at_line_start_yields_hash() {
    let output = "writing image sha256:0f3a done";
    assert_eq!(extract(output), Ok(String::from("0f3a")));
}

#[test]
fn failure_messages_are_fixed() {
    assert_eq!(ProtocolFailure::NoImage.message(), "no image produced");
    assert_eq!(
        ProtocolFailure::MalformedReference.message(),
        "malformed image reference"
    );
}
