use eh::retry::{classify_retry_action, RetryAction};

#[test]
fn classifies_retryable_errors() {
    assert_eq!(
        classify_retry_action("refusing because it has an unfree license"),
        RetryAction::AllowUnfree
    );
    assert_eq!(
        classify_retry_action("refusing because it has been marked as insecure"),
        RetryAction::AllowInsecure
    );
    assert_eq!(
        classify_retry_action("refusing because it has been marked as broken"),
        RetryAction::AllowBroken
    );
    assert_eq!(classify_retry_action("ordinary error"), RetryAction::NoRetry);
}

#[test]
fn refusal_needs_the_word_refusing() {
    assert_eq!(
        classify_retry_action("Package 'x' has an unfree license"),
        RetryAction::NoRetry
    );
}
