use apol::ApolError;

#[test]
fn each_failure_reads_differently() {
    let errors = vec![
        ApolError::UpstreamUnavailable,
        ApolError::ExtractionFailed,
        ApolError::UpstreamRejected { status: 403, body: "no".to_string() },
        ApolError::NoRegionData,
        ApolError::InvalidState,
        ApolError::DecodeFailed,
        ApolError::InvalidHeaderValue,
    ];
    let messages: Vec<String> = errors.iter().map(|e| e.message()).collect();
    for i in 0..messages.len() {
        for j in 0..i {
            assert_ne!(messages[i], messages[j]);
        }
    }
}

#[test]
fn a_rejection_reads_as_status_and_body() {
    let error = ApolError::UpstreamRejected { status: 403, body: "{\"error\":\"forbidden\"}".to_string() };
    assert_eq!(error.message(), "403: {\"error\":\"forbidden\"}");
    let error = ApolError::UpstreamRejected { status: 0, body: String::new() };
    assert_eq!(error.message(), "0: ");
}

#[test]
fn fixed_sentences() {
    assert_eq!(ApolError::UpstreamUnavailable.message(), "Failed to send request to Apple Music");
    assert_eq!(ApolError::NoRegionData.message(), "No storefront data found");
    assert_eq!(ApolError::InvalidState.message(), "Token is already authenticated");
}
