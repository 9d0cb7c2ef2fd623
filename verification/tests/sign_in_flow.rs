//! GitHub device-flow sign-in decisions.

use vector_app::auth_actor::{sign_in_step, SignInEvent, SignInOutcome, SignInStage, SignInWork};

fn reason(e: &Option<SignInEvent>) -> String {
    match e {
        Some(SignInEvent::Failed { reason }) => reason.clone(),
        _ => panic!("expected a failure event"),
    }
}

#[test]
fn happy_path_shows_code_then_completes_after_save() {
    let (st, work, ev) = sign_in_step(SignInStage::Starting, SignInOutcome::ClientReady);
    assert_eq!(st, SignInStage::RequestingCode);
    assert_eq!(work, Some(SignInWork::RequestDeviceCode));
    assert!(ev.is_none());

    let (st, work, ev) = sign_in_step(
        st,
        SignInOutcome::CodeIssued {
            user_code: "ABCD-1234".into(),
            verification_uri: "https://github.com/login/device".into(),
            expires_in_secs: 900,
            interval_secs: 5,
        },
    );
    assert_eq!(st, SignInStage::Polling);
    assert_eq!(work, Some(SignInWork::PollForToken));
    match ev {
        Some(SignInEvent::DisplayCode { user_code, verification_uri, expires_in_secs, interval_secs }) => {
            assert_eq!(user_code, "ABCD-1234");
            assert_eq!(verification_uri, "https://github.com/login/device");
            assert_eq!((expires_in_secs, interval_secs), (900, 5));
        }
        _ => panic!("expected the device code"),
    }

    let (st, work, ev) = sign_in_step(st, SignInOutcome::TokenIssued);
    assert_eq!((st, work), (SignInStage::SavingTokens, Some(SignInWork::SaveTokens)));
    assert!(ev.is_none());
    let (st, work, ev) = sign_in_step(st, SignInOutcome::AccessSaved);
    assert_eq!((st, work), (SignInStage::FetchingLogin, Some(SignInWork::FetchLogin)));
    assert!(ev.is_none());
    let (st, work, ev) = sign_in_step(st, SignInOutcome::LoginFetched { login: "octocat".into() });
    assert_eq!((st, work), (SignInStage::Finished, None));
    assert!(matches!(ev, Some(SignInEvent::Completed { ref user_login }) if user_login == "octocat"));
}

#[test]
fn login_failure_completes_as_unknown() {
    let (st, _, ev) = sign_in_step(SignInStage::FetchingLogin, SignInOutcome::LoginFailed);
    assert_eq!(st, SignInStage::Finished);
    assert!(matches!(ev, Some(SignInEvent::Completed { ref user_login }) if user_login == "unknown"));
}

#[test]
fn failure_reasons_are_prefixed() {
    let (st, _, ev) = sign_in_step(SignInStage::Starting, SignInOutcome::ClientFailed { error: "no tls".into() });
    assert_eq!(st, SignInStage::Finished);
    assert_eq!(reason(&ev), "init: no tls");
    let (_, _, ev) = sign_in_step(SignInStage::RequestingCode, SignInOutcome::CodeFailed { error: "503".into() });
    assert_eq!(reason(&ev), "device_code: 503");
    let (_, _, ev) = sign_in_step(SignInStage::Polling, SignInOutcome::PollFailed { error: "denied".into() });
    assert_eq!(reason(&ev), "oauth: denied");
    let (_, _, ev) = sign_in_step(SignInStage::SavingTokens, SignInOutcome::AccessSaveFailed { error: "locked".into() });
    assert_eq!(reason(&ev), "keychain: locked");
    let (_, _, ev) = sign_in_step(SignInStage::Polling, SignInOutcome::PollExpired);
    assert_eq!(reason(&ev), "expired");
    let (_, _, ev) = sign_in_step(SignInStage::Polling, SignInOutcome::CancelSeen);
    assert_eq!(reason(&ev), "cancelled");
    let (_, _, ev) = sign_in_step(SignInStage::Polling, SignInOutcome::PollCancelled);
    assert_eq!(reason(&ev), "cancelled");
}

#[test]
fn finished_or_out_of_place_outcomes_change_nothing() {
    let (st, work, ev) = sign_in_step(SignInStage::Finished, SignInOutcome::LoginFetched { login: "x".into() });
    assert_eq!((st, work), (SignInStage::Finished, None));
    assert!(ev.is_none());
    let (st, work, ev) = sign_in_step(SignInStage::Polling, SignInOutcome::AccessSaved);
    assert_eq!((st, work), (SignInStage::Polling, None));
    assert!(ev.is_none(), "a completion is never reported before the token is saved");
}
