use webauthn_client::desktop_notifications::DesktopNotificationsFallbackNotifier;
use webauthn_client::error::NotifierError;
use webauthn_client::error::SignError;
use webauthn_client::progress_bar::ProgressBarFallbackNotifier;
use webauthn_client::progress_bar::TICK_INTERVAL_SECS;

#[test]
fn desktop_notification_asks_for_the_device() {
    let notifier = DesktopNotificationsFallbackNotifier::new();
    let notification = notifier.notify_start().unwrap();
    assert_eq!(notification.summary, "WebAuthn");
    assert_eq!(notification.body, "Please insert and activate your U2F device.");
}

#[test]
fn desktop_notification_shows_nothing_at_the_end() {
    assert!(DesktopNotificationsFallbackNotifier::new().notify_end().is_none());
}

#[test]
fn spinner_has_seven_frames_and_a_blue_template() {
    let notifier = ProgressBarFallbackNotifier::new();
    assert_eq!(
        notifier.tick_strings,
        vec![
            "\u{25b9}\u{25b9}\u{25b9}\u{25b9}\u{25b9}",
            "\u{25b8}\u{25b9}\u{25b9}\u{25b9}\u{25b9}",
            "\u{25b9}\u{25b8}\u{25b9}\u{25b9}\u{25b9}",
            "\u{25b9}\u{25b9}\u{25b8}\u{25b9}\u{25b9}",
            "\u{25b9}\u{25b9}\u{25b9}\u{25b8}\u{25b9}",
            "\u{25b9}\u{25b9}\u{25b9}\u{25b9}\u{25b8}",
            "\u{25aa}\u{25aa}\u{25aa}\u{25aa}\u{25aa}",
        ]
    );
    assert_eq!(notifier.template, "{spinner:.blue} {msg}");
    assert_eq!(notifier.tick_interval_secs, 120);
    assert_eq!(TICK_INTERVAL_SECS, 120);
}

#[test]
fn spinner_messages() {
    let notifier = ProgressBarFallbackNotifier::new();
    assert_eq!(notifier.notify_start(), "Please insert and activate your U2F device...");
    assert_eq!(notifier.notify_end(), "Processing sign request...");
}

#[test]
fn authentication_error_tells_the_user_what_to_check() {
    assert_eq!(
        SignError::AuthenticationError.message(),
        "There was an issue authenticating your U2F device. Please ensure that it's set up on your account, plugged in, and that you activate it."
    );
}

#[test]
fn communication_error_message() {
    assert_eq!(SignError::CommunicationError.message(), "Problem receiving, unable to continue");
}

#[test]
fn every_error_has_a_message() {
    let errors = [
        SignError::InvalidOrigin,
        SignError::CommunicationError,
        SignError::AuthenticationError,
        SignError::PlatformApiError(-1),
        SignError::MalformedSignaturePayload,
    ];
    for error in errors {
        assert!(!error.message().is_empty(), "{:?}", error);
    }
}

#[test]
fn notifier_failure_carries_the_notifier_message() {
    let error = SignError::NotifierFailed(NotifierError { message: "no display".to_string() });
    assert_eq!(error.message(), "no display");
}
