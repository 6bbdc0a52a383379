use opencode_sidecar::portscan::extract_port_from_line;

#[test]
fn extracts_port_from_listening_line() {
    assert_eq!(extract_port_from_line("Server listening on 127.0.0.1:41234"), Some(41234));
}

#[test]
fn no_digits_after_colon_yields_none() {
    assert_eq!(extract_port_from_line("Server listening on localhost: none"), None);
}

#[test]
fn plain_colon_number() {
    assert_eq!(extract_port_from_line("bound to :3001"), Some(3001));
}

#[test]
fn port_word_pattern() {
    assert_eq!(extract_port_from_line("using port 8080 now"), Some(8080));
}

#[test]
fn localhost_pattern() {
    assert_eq!(extract_port_from_line("ready on localhost:5173"), Some(5173));
}

#[test]
fn first_matcher_wins() {
    // the colon matcher runs first and takes the earliest colon-digit hit
    assert_eq!(extract_port_from_line("a:1 port 2 localhost:3"), Some(1));
}

#[test]
fn oversized_number_falls_through_to_later_matcher() {
    // the colon matcher captures 99999 which is no port; "port 80" still hits
    assert_eq!(extract_port_from_line(":99999 port 80"), Some(80));
}

#[test]
fn oversized_number_alone_yields_none() {
    assert_eq!(extract_port_from_line(":99999999"), None);
}

#[test]
fn empty_line_yields_none() {
    assert_eq!(extract_port_from_line(""), None);
}

#[test]
fn listening_with_gap_before_digits() {
    assert_eq!(extract_port_from_line("listening happily on 9000"), Some(9000));
}
