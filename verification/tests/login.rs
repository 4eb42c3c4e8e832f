use apple_account::account::AppleAccount;
use apple_account::error::AccountError;
use apple_account::login::{Awaited, LoginAction, LoginEvent, LoginSession};
use apple_account::plist_tree::{PlistDictionary, PlistValue};
use apple_account::types::{
    LoginState, SMSTwoFactorError, SideloadError, SmsSendOutcome, TrustedNumber,
    TwoFactorCallbackParams, TwoFactorCallbackResponse,
};

fn number(id: u32) -> TrustedNumber {
    TrustedNumber {
        number_with_dial_code: format!("+1 555 000{}", id),
        last_two_digits: format!("0{}", id),
        push_mode: "sms".to_string(),
        id,
    }
}

fn service_error(code: &str) -> SMSTwoFactorError {
    SMSTwoFactorError {
        code: code.to_string(),
        title: "Title".to_string(),
        message: "Message".to_string(),
    }
}

fn begin() -> (AppleAccount, LoginSession) {
    let account = AppleAccount::new("user@example.com", false);
    let (session, action) = account.login();
    assert!(matches!(action, LoginAction::Authenticate));
    (account, session)
}

fn authenticated(state: LoginState) -> (AppleAccount, LoginSession, LoginAction) {
    let (mut account, mut session) = begin();
    let action = account.login_step(&mut session, LoginEvent::Authenticated(state)).unwrap();
    (account, session, action)
}

fn respond(
    account: &mut AppleAccount,
    session: &mut LoginSession,
    response: TwoFactorCallbackResponse,
) -> Result<LoginAction, AccountError> {
    account.login_step(session, LoginEvent::UserResponse(response))
}

fn asked(action: LoginAction) -> TwoFactorCallbackParams {
    match action {
        LoginAction::AskUser(params) => params,
        other => panic!("unexpected action {:?}", other),
    }
}

/// An account that has been asked for the code on a trusted device.
fn device_question() -> (AppleAccount, LoginSession, TwoFactorCallbackParams) {
    let (mut account, mut session, action) = authenticated(LoginState::NeedsDevice2FA);
    assert!(matches!(action, LoginAction::FetchTrustedNumbers));
    let numbers = vec![number(1), number(2)];
    let action = account.login_step(&mut session, LoginEvent::TrustedNumbers(numbers)).unwrap();
    assert!(matches!(action, LoginAction::SendDeviceCode));
    let action = account.login_step(&mut session, LoginEvent::DeviceCodeSent).unwrap();
    (account, session, asked(action))
}

/// An account that has been asked for the code in a text message to number 1.
fn sms_question() -> (AppleAccount, LoginSession, TwoFactorCallbackParams) {
    let (mut account, mut session, action) = authenticated(LoginState::NeedsSMS2FA(1));
    assert!(matches!(action, LoginAction::FetchTrustedNumbers));
    let numbers = vec![number(1), number(2)];
    let action = account.login_step(&mut session, LoginEvent::TrustedNumbers(numbers)).unwrap();
    assert!(matches!(action, LoginAction::SendSms(1)));
    let sent = LoginEvent::SmsSent(SmsSendOutcome::Sent);
    let action = account.login_step(&mut session, sent).unwrap();
    (account, session, asked(action))
}

/// An account whose last way of verification failed.
fn unknown_question() -> (AppleAccount, LoginSession, TwoFactorCallbackParams) {
    let (mut account, mut session, _) = authenticated(LoginState::NeedsSMS2FA(1));
    account.login_step(&mut session, LoginEvent::TrustedNumbers(vec![number(1)])).unwrap();
    let refused = LoginEvent::SmsSent(SmsSendOutcome::ServiceError(service_error("-28248")));
    let action = account.login_step(&mut session, refused).unwrap();
    (account, session, asked(action))
}

#[test]
fn login_without_second_factor_finishes_at_once() {
    let (account, session, action) = authenticated(LoginState::LoggedIn);
    assert!(matches!(action, LoginAction::Finish));
    assert_eq!(session.attempts, 1);
    assert_eq!(session.awaiting, Awaited::Nothing);
    assert_eq!(account.to_string(), "Apple Account: user@example.com (LoggedIn)");
}

#[test]
fn device_code_completes_the_login() {
    let (mut account, mut session, params) = device_question();
    assert_eq!(params.last_error, None);
    assert!(!params.unknown);
    assert!(!params.sms);
    assert_eq!(params.numbers.len(), 2);
    assert_eq!(params.numbers[1].id, 2);
    assert_eq!(params.selected_number_id, None);

    let code = TwoFactorCallbackResponse::SubmitCode("123456".to_string());
    match respond(&mut account, &mut session, code).unwrap() {
        LoginAction::SubmitDeviceCode(code) => assert_eq!(code, "123456"),
        other => panic!("unexpected action {:?}", other),
    }
    let checked = LoginEvent::DeviceCodeChecked(Ok(()));
    let action = account.login_step(&mut session, checked).unwrap();
    assert!(matches!(action, LoginAction::Authenticate));
    let done = LoginEvent::Authenticated(LoginState::LoggedIn);
    let action = account.login_step(&mut session, done).unwrap();
    assert!(matches!(action, LoginAction::Finish));
    assert_eq!(session.attempts, 4);
}

#[test]
fn incorrect_device_code_is_asked_again_with_the_reason() {
    let (mut account, mut session, _) = device_question();
    let code = TwoFactorCallbackResponse::SubmitCode("000000".to_string());
    respond(&mut account, &mut session, code).unwrap();
    let causes = vec![
        SideloadError::Other("Trusted device 2FA rejected".to_string()),
        SideloadError::AuthWithMessage(-1, "something else".to_string()),
        SideloadError::AuthWithMessage(-21669, "Incorrect verification code.".to_string()),
        SideloadError::AuthWithMessage(-21669, "Not this one.".to_string()),
    ];
    let checked = LoginEvent::DeviceCodeChecked(Err(causes));
    let params = asked(account.login_step(&mut session, checked).unwrap());
    assert_eq!(params.last_error.as_deref(), Some("-21669 - Incorrect verification code."));
    assert!(!params.sms);
    assert!(matches!(account.login_state, LoginState::NeedsDevice2FAVerification));
}

#[test]
fn an_error_is_shown_once() {
    let (mut account, mut session, _) = device_question();
    let code = TwoFactorCallbackResponse::SubmitCode("000000".to_string());
    respond(&mut account, &mut session, code).unwrap();
    let causes = vec![SideloadError::AuthWithMessage(-21669, "Incorrect.".to_string())];
    let params =
        asked(account.login_step(&mut session, LoginEvent::DeviceCodeChecked(Err(causes))).unwrap());
    assert_eq!(params.last_error.as_deref(), Some("-21669 - Incorrect."));
    let action =
        respond(&mut account, &mut session, TwoFactorCallbackResponse::ResendCode).unwrap();
    assert!(matches!(action, LoginAction::SendDeviceCode));
    let params = asked(account.login_step(&mut session, LoginEvent::DeviceCodeSent).unwrap());
    assert_eq!(params.last_error, None);
}

#[test]
fn another_rejection_of_a_device_code_ends_the_login() {
    let (mut account, mut session, _) = device_question();
    let code = TwoFactorCallbackResponse::SubmitCode("000000".to_string());
    respond(&mut account, &mut session, code).unwrap();
    let causes = vec![SideloadError::AuthWithMessage(-20101, "Locked".to_string())];
    let checked = LoginEvent::DeviceCodeChecked(Err(causes));
    let error = account.login_step(&mut session, checked).unwrap_err();
    assert!(matches!(&error, AccountError::DeviceCodeRejected(causes) if causes.len() == 1));
    assert_eq!(error.message(), "Trusted device 2FA rejected");
    assert_eq!(session.awaiting, Awaited::Nothing);
}

#[test]
fn sms_code_completes_the_login() {
    let (mut account, mut session, params) = sms_question();
    assert!(params.sms);
    assert_eq!(params.selected_number_id, Some(1));
    let code = TwoFactorCallbackResponse::SubmitCode("654321".to_string());
    match respond(&mut account, &mut session, code).unwrap() {
        LoginAction::SubmitSmsCode(code, id) => {
            assert_eq!(code, "654321");
            assert_eq!(id, 1);
        }
        other => panic!("unexpected action {:?}", other),
    }
    let action = account.login_step(&mut session, LoginEvent::SmsCodeChecked(None)).unwrap();
    assert!(matches!(action, LoginAction::Authenticate));
}

#[test]
fn incorrect_sms_code_is_asked_again_for_the_same_number() {
    let (mut account, mut session, _) = sms_question();
    let code = TwoFactorCallbackResponse::SubmitCode("654321".to_string());
    respond(&mut account, &mut session, code).unwrap();
    let rejected = LoginEvent::SmsCodeChecked(Some(service_error("-21669")));
    let params = asked(account.login_step(&mut session, rejected).unwrap());
    assert_eq!(params.last_error.as_deref(), Some("Title - Message"));
    assert_eq!(params.selected_number_id, Some(1));
}

#[test]
fn another_rejection_of_an_sms_code_ends_the_login() {
    let (mut account, mut session, _) = sms_question();
    let code = TwoFactorCallbackResponse::SubmitCode("654321".to_string());
    respond(&mut account, &mut session, code).unwrap();
    let rejected = LoginEvent::SmsCodeChecked(Some(service_error("-1")));
    let error = account.login_step(&mut session, rejected).unwrap_err();
    assert_eq!(error.message(), "SMS 2FA code submission failed (code -1): Title - Message");
}

#[test]
fn refused_sms_keeps_the_number_and_sends_no_other() {
    for code in ["-22979", "-22981"] {
        let (mut account, mut session, _) = sms_question();
        let action =
            respond(&mut account, &mut session, TwoFactorCallbackResponse::SendSms(2)).unwrap();
        assert!(matches!(action, LoginAction::SendSms(2)));
        let refused = LoginEvent::SmsSent(SmsSendOutcome::ServiceError(service_error(code)));
        let params = asked(account.login_step(&mut session, refused).unwrap());
        assert_eq!(params.selected_number_id, Some(2));
        assert_eq!(params.last_error.as_deref(), Some("Title - Message"));
        assert!(params.sms);
    }
}

#[test]
fn active_challenge_moves_to_its_own_number() {
    let (mut account, mut session, _) = authenticated(LoginState::NeedsSMS2FA(1));
    account.login_step(&mut session, LoginEvent::TrustedNumbers(vec![number(3)])).unwrap();
    let active = LoginEvent::SmsSent(SmsSendOutcome::ActiveChallenge { actual_number_id: 3 });
    let params = asked(account.login_step(&mut session, active).unwrap());
    assert_eq!(params.selected_number_id, Some(3));
    assert_eq!(params.last_error, None);
}

#[test]
fn other_send_errors_end_the_login() {
    let (mut account, mut session, _) = authenticated(LoginState::NeedsSMS2FA(1));
    account.login_step(&mut session, LoginEvent::TrustedNumbers(vec![number(1)])).unwrap();
    let refused = LoginEvent::SmsSent(SmsSendOutcome::ServiceError(service_error("-9")));
    let error = account.login_step(&mut session, refused).unwrap_err();
    assert_eq!(error.message(), "SMS 2FA request failed (code -9): Title - Message");
    assert_eq!(session.awaiting, Awaited::Nothing);
}

#[test]
fn failed_method_lets_the_user_choose() {
    let (mut account, mut session, params) = unknown_question();
    assert!(params.unknown);
    assert!(!params.sms);
    assert_eq!(params.selected_number_id, None);
    assert_eq!(params.last_error.as_deref(), Some("Title - Message"));
    let action =
        respond(&mut account, &mut session, TwoFactorCallbackResponse::SendToDevices).unwrap();
    assert!(matches!(action, LoginAction::SendDeviceCode));
}

#[test]
fn failed_method_takes_no_code_and_no_resend() {
    let (mut account, mut session, _) = unknown_question();
    let code = TwoFactorCallbackResponse::SubmitCode("1".to_string());
    let error = respond(&mut account, &mut session, code).unwrap_err();
    assert_eq!(error.message(), "Cannot submit code without knowing which method to use");

    let (mut account, mut session, _) = unknown_question();
    let error =
        respond(&mut account, &mut session, TwoFactorCallbackResponse::ResendCode).unwrap_err();
    assert_eq!(error.message(), "Cannot resend code without knowing which method to use");

    let (mut account, mut session, _) = unknown_question();
    let error = respond(&mut account, &mut session, TwoFactorCallbackResponse::Abort).unwrap_err();
    assert_eq!(error.message(), "No 2FA method selected, aborting");
}

#[test]
fn abort_ends_the_login() {
    let (mut account, mut session, _) = device_question();
    let error = respond(&mut account, &mut session, TwoFactorCallbackResponse::Abort).unwrap_err();
    assert_eq!(error.message(), "No 2FA code provided, aborting");
    assert_eq!(session.awaiting, Awaited::Nothing);
    let (mut account, mut session, _) = sms_question();
    let error = respond(&mut account, &mut session, TwoFactorCallbackResponse::Abort).unwrap_err();
    assert!(matches!(error, AccountError::NoCodeProvided));
}

#[test]
fn user_changes_between_the_ways() {
    let (mut account, mut session, _) = sms_question();
    let action =
        respond(&mut account, &mut session, TwoFactorCallbackResponse::ResendCode).unwrap();
    assert!(matches!(action, LoginAction::SendSms(1)));
    let sent = LoginEvent::SmsSent(SmsSendOutcome::Sent);
    asked(account.login_step(&mut session, sent).unwrap());
    let action =
        respond(&mut account, &mut session, TwoFactorCallbackResponse::SendToDevices).unwrap();
    assert!(matches!(action, LoginAction::SendDeviceCode));

    let (mut account, mut session, _) = device_question();
    let action =
        respond(&mut account, &mut session, TwoFactorCallbackResponse::SendToDevices).unwrap();
    assert!(matches!(action, LoginAction::SendDeviceCode));
}

#[test]
fn only_trusted_numbers_can_be_chosen() {
    let (mut account, mut session, _) = device_question();
    let action =
        respond(&mut account, &mut session, TwoFactorCallbackResponse::SendSms(2)).unwrap();
    assert!(matches!(action, LoginAction::SendSms(2)));

    let (mut account, mut session, _) = device_question();
    let error =
        respond(&mut account, &mut session, TwoFactorCallbackResponse::SendSms(9)).unwrap_err();
    assert_eq!(error.message(), "Selected trusted number ID not found in trusted numbers");
}

#[test]
fn trusted_numbers_are_fetched_once() {
    let (mut account, mut session, _) = sms_question();
    account.login_step(
        &mut session,
        LoginEvent::UserResponse(TwoFactorCallbackResponse::SubmitCode("1".to_string())),
    )
    .unwrap();
    account.login_step(&mut session, LoginEvent::SmsCodeChecked(None)).unwrap();
    let again = LoginEvent::Authenticated(LoginState::NeedsSMS2FA(1));
    let action = account.login_step(&mut session, again).unwrap();
    assert!(matches!(action, LoginAction::SendSms(1)));
}

#[test]
fn extra_step_needs_the_password_equivalent_token() {
    let (mut account, mut session) = begin();
    let extra = LoginEvent::Authenticated(LoginState::NeedsExtraStep("update".to_string()));
    let error = account.login_step(&mut session, extra).unwrap_err();
    assert_eq!(error.message(), "Additional authentication required: update");

    let (mut account, mut session) = begin();
    let token = PlistDictionary::new().with("token", PlistValue::text("pet"));
    let tokens =
        PlistDictionary::new().with("com.apple.gs.idms.pet", PlistValue::dictionary(token));
    account.spd = Some(PlistDictionary::new().with("t", PlistValue::dictionary(tokens)));
    let extra = LoginEvent::Authenticated(LoginState::NeedsExtraStep("update".to_string()));
    let action = account.login_step(&mut session, extra).unwrap();
    assert!(matches!(action, LoginAction::Finish));
    assert!(matches!(account.login_state, LoginState::LoggedIn));
    assert_eq!(session.attempts, 2);
}

#[test]
fn login_gives_up_after_fifteen_rounds() {
    let (mut account, mut session) = begin();
    for _ in 0..15 {
        let again = LoginEvent::Authenticated(LoginState::NeedsLogin);
        let action = account.login_step(&mut session, again).unwrap();
        assert!(matches!(action, LoginAction::Authenticate));
    }
    let done = LoginEvent::Authenticated(LoginState::LoggedIn);
    let error = account.login_step(&mut session, done).unwrap_err();
    assert_eq!(
        error.message(),
        "Couldn't login after 15 attempts, aborting (current state: LoggedIn)"
    );
    assert_eq!(session.awaiting, Awaited::Nothing);
    assert_eq!(session.attempts, 15);
}

#[test]
fn exhausted_login_names_its_state() {
    let (mut account, mut session) = begin();
    session.attempts = 15;
    let event = LoginEvent::Authenticated(LoginState::NeedsExtraStep("a \"b\"".to_string()));
    let error = account.login_step(&mut session, event).unwrap_err();
    assert_eq!(
        error.message(),
        "Couldn't login after 15 attempts, aborting (current state: NeedsExtraStep(\"a \\\"b\\\"\"))"
    );
}

#[test]
fn longest_login_takes_thirty_one_events() {
    let (mut account, mut session) = begin();
    let mut taken = 1;
    account
        .login_step(&mut session, LoginEvent::Authenticated(LoginState::NeedsDevice2FA))
        .unwrap();
    account.login_step(&mut session, LoginEvent::TrustedNumbers(vec![number(1)])).unwrap();
    account.login_step(&mut session, LoginEvent::DeviceCodeSent).unwrap();
    taken += 2;
    loop {
        let code = TwoFactorCallbackResponse::SubmitCode("0".to_string());
        respond(&mut account, &mut session, code).unwrap();
        taken += 1;
        let causes = vec![SideloadError::AuthWithMessage(-21669, "Incorrect.".to_string())];
        let checked = LoginEvent::DeviceCodeChecked(Err(causes));
        taken += 1;
        if account.login_step(&mut session, checked).is_err() {
            assert_eq!(taken, 31);
            return;
        }
    }
}

#[test]
fn unexpected_events_change_nothing() {
    let (mut account, mut session, _) = device_question();
    let before = session;
    let error = account.login_step(&mut session, LoginEvent::DeviceCodeSent).unwrap_err();
    assert!(matches!(error, AccountError::UnexpectedEvent));
    assert_eq!(error.message(), "The reply does not answer the pending step");
    assert_eq!(session.attempts, before.attempts);
    assert_eq!(session.awaiting, Awaited::UserResponse);
    assert!(matches!(account.login_state, LoginState::NeedsDevice2FAVerification));
    let done = LoginEvent::Authenticated(LoginState::LoggedIn);
    assert!(account.login_step(&mut session, done).is_err());
    let action =
        respond(&mut account, &mut session, TwoFactorCallbackResponse::ResendCode).unwrap();
    assert!(matches!(action, LoginAction::SendDeviceCode));
}

#[test]
fn login_leaves_the_rest_of_the_account_alone() {
    let (mut account, mut session) = begin();
    account.spd = Some(PlistDictionary::new().with("fn", PlistValue::text("Ada")));
    let state = LoginState::NeedsSMS2FA(1);
    account.login_step(&mut session, LoginEvent::Authenticated(state)).unwrap();
    account.login_step(&mut session, LoginEvent::TrustedNumbers(vec![number(8)])).unwrap();
    account.login_step(&mut session, LoginEvent::SmsSent(SmsSendOutcome::Sent)).unwrap();
    assert_eq!(account.email, "user@example.com");
    assert!(!account.debug);
    assert_eq!(account.spd.unwrap().get_str("fn").unwrap(), "Ada");
    assert_eq!(account.trusted_phone_numbers.unwrap()[0].id, 8);
}

#[test]
fn questions_show_the_number_of_the_open_challenge() {
    let (mut account, mut session, params) = sms_question();
    assert_eq!(params.selected_number_id, Some(1));
    respond(&mut account, &mut session, TwoFactorCallbackResponse::SendSms(2)).unwrap();
    let active = LoginEvent::SmsSent(SmsSendOutcome::ActiveChallenge { actual_number_id: 1 });
    let params = asked(account.login_step(&mut session, active).unwrap());
    assert_eq!(params.selected_number_id, Some(1));
    assert!(params.sms && !params.unknown);
    assert_eq!(params.numbers.len(), 2);
}

#[test]
fn questions_and_requests_take_at_most_fifteen_rounds() {
    let (mut account, mut session) = begin();
    let mut taken = 0;
    let mut action = account
        .login_step(&mut session, LoginEvent::Authenticated(LoginState::NeedsDevice2FA))
        .unwrap();
    loop {
        if matches!(
            action,
            LoginAction::AskUser(_)
                | LoginAction::SendDeviceCode
                | LoginAction::SendSms(_)
                | LoginAction::Authenticate
        ) {
            taken += 1;
        }
        let event = match action {
            LoginAction::FetchTrustedNumbers => LoginEvent::TrustedNumbers(vec![number(1)]),
            LoginAction::SendDeviceCode => LoginEvent::DeviceCodeSent,
            LoginAction::AskUser(_) => {
                LoginEvent::UserResponse(TwoFactorCallbackResponse::ResendCode)
            }
            other => panic!("unexpected action {:?}", other),
        };
        match account.login_step(&mut session, event) {
            Ok(next) => action = next,
            Err(error) => {
                assert!(matches!(error, AccountError::AttemptsExhausted(_)));
                assert_eq!(taken, 15);
                return;
            }
        }
    }
}
