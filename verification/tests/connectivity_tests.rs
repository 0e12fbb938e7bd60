use weather_core::connectivity::{conn_begin_messages, conn_step, ConnEvent, ConnPhase};
use weather_core::messages::{ModelRequest, UiRequest, WifiCredentials};

fn creds() -> WifiCredentials {
    WifiCredentials { ssid: "net".to_string(), pass: "pw1".to_string() }
}

#[test]
fn begin_messages_announce_the_attempt() {
    let msgs = conn_begin_messages();
    assert_eq!(msgs.len(), 2);
    assert!(matches!(msgs[0], UiRequest::ShowStartup));
    match &msgs[1] {
        UiRequest::SetStartupMessage(m) => assert_eq!(m, "Trying to connect to Wifi"),
        other => panic!("unexpected message: {:?}", other),
    }
}

#[test]
fn failed_attempt_shows_editor_with_error() {
    let mut c = creds();
    let (phase, msgs, persist) = conn_step(&mut c, ConnPhase::AttemptingConnect, ConnEvent::AttemptFailed);
    assert_eq!(phase, ConnPhase::AwaitingUserCredentials);
    assert!(!persist);
    assert_eq!(msgs.len(), 2);
    assert!(matches!(msgs[0], UiRequest::ShowWifiSettings));
    match &msgs[1] {
        UiRequest::SetWifiSettingsErrorMessage(m) => {
            assert_eq!(m, "Wifi connection failed check SSID and Password.")
        }
        other => panic!("unexpected message: {:?}", other),
    }
}

#[test]
fn successful_attempt_connects_silently() {
    let mut c = creds();
    let (phase, msgs, persist) =
        conn_step(&mut c, ConnPhase::AttemptingConnect, ConnEvent::AttemptSucceeded);
    assert_eq!(phase, ConnPhase::Connected);
    assert!(msgs.is_empty());
    assert!(!persist);
    assert_eq!(c.ssid, "net");
}

#[test]
fn empty_poll_keeps_waiting() {
    let mut c = creds();
    let (phase, msgs, persist) =
        conn_step(&mut c, ConnPhase::AwaitingUserCredentials, ConnEvent::Inbox(None));
    assert_eq!(phase, ConnPhase::AwaitingUserCredentials);
    assert!(msgs.is_empty());
    assert!(!persist);
}

#[test]
fn other_requests_are_dropped_while_waiting() {
    let mut c = creds();
    let (phase, msgs, persist) = conn_step(
        &mut c,
        ConnPhase::AwaitingUserCredentials,
        ConnEvent::Inbox(Some(ModelRequest::UpdateCitiesInfo(Vec::new()))),
    );
    assert_eq!(phase, ConnPhase::AwaitingUserCredentials);
    assert!(msgs.is_empty());
    assert!(!persist);
}

#[test]
fn credentials_request_persists_and_retries() {
    let mut c = creds();
    let (phase, msgs, persist) = conn_step(
        &mut c,
        ConnPhase::AwaitingUserCredentials,
        ConnEvent::Inbox(Some(ModelRequest::UpdateWifiCreds(
            "other".to_string(),
            "pw1".to_string(),
        ))),
    );
    assert_eq!(phase, ConnPhase::AttemptingConnect);
    assert!(persist);
    assert_eq!(c.ssid, "other");
    assert_eq!(msgs.len(), 3);
    assert!(matches!(msgs[0], UiRequest::ShowStartup));
    assert!(matches!(&msgs[1], UiRequest::SetStartupMessage(m) if m == "Trying to connect to Wifi"));
    assert!(matches!(&msgs[2], UiRequest::SetWifiSettingsErrorMessage(m) if m.is_empty()));
}

#[test]
fn n_failures_then_success_prompt_exactly_n_times() {
    for n in 0..5usize {
        let mut c = creds();
        let mut phase = ConnPhase::AttemptingConnect;
        let mut error_prompts = 0usize;
        let mut connects = 0usize;
        for _ in 0..n {
            let (next, msgs, _) = conn_step(&mut c, phase, ConnEvent::AttemptFailed);
            if msgs.iter().any(|m| matches!(m, UiRequest::ShowWifiSettings)) {
                error_prompts += 1;
            }
            phase = next;
            let (next, _, _) = conn_step(
                &mut c,
                phase,
                ConnEvent::Inbox(Some(ModelRequest::UpdateWifiCreds(
                    "net".to_string(),
                    "pw1".to_string(),
                ))),
            );
            phase = next;
        }
        let (next, _, _) = conn_step(&mut c, phase, ConnEvent::AttemptSucceeded);
        if next == ConnPhase::Connected {
            connects += 1;
        }
        phase = next;
        assert_eq!(phase, ConnPhase::Connected);
        assert_eq!(error_prompts, n);
        assert_eq!(connects, 1);
    }
}
