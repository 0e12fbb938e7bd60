//! The connectivity bring-up retry state machine.
//!
//! From a disconnected start the machine attempts to connect with the
//! current credentials. Every failure switches the display to the
//! credentials editor with a fixed error line and waits for the user;
//! a credentials-change request is persisted and starts a new attempt.
//! There is no retry limit: the machine runs until an attempt succeeds.
//! While it waits, any other request is dropped, not requeued.

use vstd::prelude::*;

use crate::messages::{ModelRequest, UiRequest, WifiCredentials};

verus! {

/// The phases of connectivity bring-up. `Connected` is terminal.
#[derive(Debug, Clone, Copy, PartialEq, Eq, Structural)]
pub enum ConnPhase {
    AttemptingConnect,
    AwaitingUserCredentials,
    Connected,
}

/// What the environment hands the machine for one step: the outcome of
/// a connection attempt, or one non-blocking poll of the inbox.
#[derive(Debug)]
pub enum ConnEvent {
    AttemptSucceeded,
    AttemptFailed,
    Inbox(Option<ModelRequest>),
}

/// Whether an event can occur in a phase: attempts are made only while
/// attempting, the inbox is polled only while awaiting the user, and
/// nothing happens after the machine has connected.
pub open spec fn conn_event_fits(phase: ConnPhase, ev: ConnEvent) -> bool {
    match phase {
        ConnPhase::AttemptingConnect => ev is AttemptSucceeded || ev is AttemptFailed,
        ConnPhase::AwaitingUserCredentials => ev is Inbox,
        ConnPhase::Connected => false,
    }
}

/// The phase after one step.
pub open spec fn spec_conn_next(phase: ConnPhase, ev: ConnEvent) -> ConnPhase {
    match phase {
        ConnPhase::AttemptingConnect => match ev {
            ConnEvent::AttemptSucceeded => ConnPhase::Connected,
            ConnEvent::AttemptFailed => ConnPhase::AwaitingUserCredentials,
            ConnEvent::Inbox(_) => phase,
        },
        ConnPhase::AwaitingUserCredentials => match ev {
            ConnEvent::Inbox(Some(ModelRequest::UpdateWifiCreds(_, _))) => {
                ConnPhase::AttemptingConnect
            },
            _ => phase,
        },
        ConnPhase::Connected => phase,
    }
}

/// Whether a step shows the credentials editor with the error line.
pub open spec fn conn_emits_error_prompt(phase: ConnPhase, ev: ConnEvent) -> bool {
    phase is AttemptingConnect && ev is AttemptFailed
}

/// Whether a step is the final transition into `Connected`.
pub open spec fn conn_connects(phase: ConnPhase, ev: ConnEvent) -> bool {
    phase is AttemptingConnect && ev is AttemptSucceeded
}

/// The phase after running a whole event sequence.
pub open spec fn spec_conn_run(phase: ConnPhase, events: Seq<ConnEvent>) -> ConnPhase
    decreases events.len(),
{
    if events.len() == 0 {
        phase
    } else {
        spec_conn_run(spec_conn_next(phase, events.first()), events.drop_first())
    }
}

/// How many steps of the run show the credentials editor with the error.
pub open spec fn count_error_prompts(phase: ConnPhase, events: Seq<ConnEvent>) -> nat
    decreases events.len(),
{
    if events.len() == 0 {
        0
    } else {
        (if conn_emits_error_prompt(phase, events.first()) {
            1nat
        } else {
            0nat
        }) + count_error_prompts(spec_conn_next(phase, events.first()), events.drop_first())
    }
}

/// How many steps of the run transition into `Connected`.
pub open spec fn count_connects(phase: ConnPhase, events: Seq<ConnEvent>) -> nat
    decreases events.len(),
{
    if events.len() == 0 {
        0
    } else {
        (if conn_connects(phase, events.first()) {
            1nat
        } else {
            0nat
        }) + count_connects(spec_conn_next(phase, events.first()), events.drop_first())
    }
}

/// The messages announcing a new connection attempt.
pub fn conn_begin_messages() -> (msgs: Vec<UiRequest>)
    ensures
        msgs@.len() == 2,
        msgs@[0] == UiRequest::ShowStartup,
        msgs@[1] matches UiRequest::SetStartupMessage(m) && m@ == "Trying to connect to Wifi"@,
{
    let mut msgs: Vec<UiRequest> = Vec::new();
    msgs.push(UiRequest::ShowStartup);
    msgs.push(UiRequest::SetStartupMessage(String::from_str("Trying to connect to Wifi")));
    msgs
}

/// One step of the bring-up machine. On a failed attempt it emits the
/// switch to the credentials editor with the fixed error line; on a
/// credentials request it stores the new credentials, asks for them to
/// be persisted, clears the error and announces the next attempt. Any
/// other request received while awaiting the user is dropped.
pub fn conn_step(creds: &mut WifiCredentials, phase: ConnPhase, event: ConnEvent) -> (r: (
    ConnPhase,
    Vec<UiRequest>,
    bool,
))
    requires
        conn_event_fits(phase, event),
    ensures
        r.0 == spec_conn_next(phase, event),
        conn_connects(phase, event) ==> r.1@.len() == 0 && !r.2 && *final(creds) == *old(creds),
        conn_emits_error_prompt(phase, event) ==> {
            &&& r.1@.len() == 2
            &&& r.1@[0] == UiRequest::ShowWifiSettings
            &&& (r.1@[1] matches UiRequest::SetWifiSettingsErrorMessage(m) && m@
                == "Wifi connection failed check SSID and Password."@)
            &&& !r.2
            &&& *final(creds) == *old(creds)
        },
        phase is AwaitingUserCredentials ==> (event matches ConnEvent::Inbox(
            Some(ModelRequest::UpdateWifiCreds(s, p)),
        ) ==> {
            &&& final(creds).ssid@ == s@
            &&& final(creds).pass@ == p@
            &&& r.2
            &&& r.1@.len() == 3
            &&& r.1@[0] == UiRequest::ShowStartup
            &&& (r.1@[1] matches UiRequest::SetStartupMessage(m) && m@
                == "Trying to connect to Wifi"@)
            &&& (r.1@[2] matches UiRequest::SetWifiSettingsErrorMessage(m) && m@ == ""@)
        }),
        (phase is AwaitingUserCredentials && !(event matches ConnEvent::Inbox(
            Some(ModelRequest::UpdateWifiCreds(s, p)),
        ))) ==> r.1@.len() == 0 && !r.2 && *final(creds) == *old(creds),
{
    match (phase, event) {
        (ConnPhase::AttemptingConnect, ConnEvent::AttemptSucceeded) => {
            (ConnPhase::Connected, Vec::new(), false)
        },
        (ConnPhase::AttemptingConnect, ConnEvent::AttemptFailed) => {
            let mut msgs: Vec<UiRequest> = Vec::new();
            msgs.push(UiRequest::ShowWifiSettings);
            msgs.push(
                UiRequest::SetWifiSettingsErrorMessage(
                    String::from_str("Wifi connection failed check SSID and Password."),
                ),
            );
            (ConnPhase::AwaitingUserCredentials, msgs, false)
        },
        (
            ConnPhase::AwaitingUserCredentials,
            ConnEvent::Inbox(Some(ModelRequest::UpdateWifiCreds(new_ssid, new_pass))),
        ) => {
            creds.ssid = new_ssid;
            creds.pass = new_pass;
            let mut msgs = conn_begin_messages();
            msgs.push(UiRequest::SetWifiSettingsErrorMessage(String::from_str("")));
            (ConnPhase::AttemptingConnect, msgs, true)
        },
        (p, _) => (p, Vec::new(), false),
    }
}

/// Nothing but a successful attempt can connect: a run that sees no
/// successful attempt never reaches `Connected`.
pub proof fn lemma_only_success_connects(phase: ConnPhase, events: Seq<ConnEvent>)
    requires
        phase != ConnPhase::Connected,
        forall|j: int| 0 <= j < events.len() ==> !((#[trigger] events[j]) is AttemptSucceeded),
    ensures
        spec_conn_run(phase, events) != ConnPhase::Connected,
    decreases events.len(),
{
    if events.len() > 0 {
        let next = spec_conn_next(phase, events.first());
        assert(!(events[0] is AttemptSucceeded));
        assert(next != ConnPhase::Connected);
        assert forall|j: int|
            0 <= j < events.drop_first().len() implies !((#[trigger] events.drop_first()[j])
            is AttemptSucceeded) by {
            assert(events.drop_first()[j] == events[j + 1]);
        }
        lemma_only_success_connects(next, events.drop_first());
    }
}

/// A bring-up trace with `n` failed attempts, each answered by a
/// credentials change, followed by one successful attempt.
pub open spec fn is_retry_trace(events: Seq<ConnEvent>, n: nat) -> bool {
    &&& events.len() == 2 * n + 1
    &&& forall|k: int| 0 <= k < n ==> #[trigger] events[2 * k] is AttemptFailed
    &&& forall|k: int|
        0 <= k < n ==> ((#[trigger] events[2 * k + 1]) matches ConnEvent::Inbox(
            Some(ModelRequest::UpdateWifiCreds(_, _)),
        ))
    &&& events[2 * (n as int)] is AttemptSucceeded
}

/// Whatever the number of failures, the bring-up run shows the
/// credentials editor with the error exactly once per failure, connects
/// exactly once, and ends connected.
pub proof fn lemma_retry_trace(events: Seq<ConnEvent>, n: nat)
    requires
        is_retry_trace(events, n),
    ensures
        spec_conn_run(ConnPhase::AttemptingConnect, events) == ConnPhase::Connected,
        count_error_prompts(ConnPhase::AttemptingConnect, events) == n,
        count_connects(ConnPhase::AttemptingConnect, events) == 1,
    decreases n,
{
    if n == 0 {
        assert(events.len() == 1);
        assert(events.first() is AttemptSucceeded);
        let rest0 = events.drop_first();
        assert(rest0.len() == 0);
        assert(spec_conn_run(ConnPhase::Connected, rest0) == ConnPhase::Connected);
        assert(count_error_prompts(ConnPhase::Connected, rest0) == 0);
        assert(count_connects(ConnPhase::Connected, rest0) == 0);
        assert(spec_conn_run(ConnPhase::AttemptingConnect, events) == spec_conn_run(
            ConnPhase::Connected,
            rest0,
        ));
        assert(count_error_prompts(ConnPhase::AttemptingConnect, events) == 0);
        assert(count_connects(ConnPhase::AttemptingConnect, events) == 1);
    } else {
        assert(events[2 * 0int] is AttemptFailed);
        assert(events[2 * 0int + 1] matches ConnEvent::Inbox(Some(ModelRequest::UpdateWifiCreds(_, _))));
        assert(events[0] is AttemptFailed);
        assert(events[1] matches ConnEvent::Inbox(Some(ModelRequest::UpdateWifiCreds(_, _))));
        let rest = events.drop_first().drop_first();
        assert(is_retry_trace(rest, (n - 1) as nat)) by {
            assert(rest.len() == 2 * (n - 1) + 1);
            assert forall|k: int| 0 <= k < n - 1 implies #[trigger] rest[2 * k]
                is AttemptFailed by {
                assert(rest[2 * k] == events[2 * (k + 1)]);
            }
            assert forall|k: int|
                0 <= k < n - 1 implies (#[trigger] rest[2 * k + 1]) matches ConnEvent::Inbox(
                Some(ModelRequest::UpdateWifiCreds(_, _)),
            ) by {
                assert(rest[2 * k + 1] == events[2 * (k + 1) + 1]);
            }
            assert(rest[2 * (n - 1)] == events[2 * (n as int)]);
        }
        lemma_retry_trace(rest, (n - 1) as nat);
        let after_fail = spec_conn_next(ConnPhase::AttemptingConnect, events.first());
        assert(after_fail == ConnPhase::AwaitingUserCredentials);
        let mid = events.drop_first();
        assert(mid.first() == events[1]);
        assert(spec_conn_next(after_fail, mid.first()) == ConnPhase::AttemptingConnect);
        assert(mid.drop_first() =~= rest);
        assert(spec_conn_run(ConnPhase::AttemptingConnect, events) == spec_conn_run(
            after_fail,
            mid,
        ));
        assert(spec_conn_run(after_fail, mid) == spec_conn_run(
            ConnPhase::AttemptingConnect,
            rest,
        ));
        assert(count_error_prompts(ConnPhase::AttemptingConnect, events) == 1
            + count_error_prompts(after_fail, mid));
        assert(count_error_prompts(after_fail, mid) == count_error_prompts(
            ConnPhase::AttemptingConnect,
            rest,
        ));
        assert(count_connects(ConnPhase::AttemptingConnect, events) == count_connects(
            after_fail,
            mid,
        ));
        assert(count_connects(after_fail, mid) == count_connects(
            ConnPhase::AttemptingConnect,
            rest,
        ));
    }
}

} // verus!
