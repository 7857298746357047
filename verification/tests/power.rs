use lgtv_ip_control::constants::errors::LgTvError;
use lgtv_ip_control::constants::types::PowerStates;
use lgtv_ip_control::lg_tv::{decrypt_reply, encrypt_command, encryption_for_key};
use lgtv_ip_control::power::{
    power_state_of, Action, Event, PowerOff, PowerOn, Probe, ProbePhase, POWER_STATE_RETRIES,
};

/// What a simulated TV saw of a procedure.
#[derive(Default)]
struct Trace {
    commands: Vec<String>,
    sleeps: Vec<u64>,
    wake_on_lan_called: bool,
    reconnect_called: bool,
}

/// Runs a procedure against a simulated TV: `respond` gives the TV's answer
/// to the n-th command; commands and answers travel encrypted.
fn run<S: Copy>(
    start: (S, Action),
    step: fn(S, Event) -> (S, Action),
    respond: &dyn Fn(usize, &str) -> String,
) -> (Result<(), LgTvError>, Trace) {
    let key = "TESTKEY123";
    let encryption = encryption_for_key(Some(key)).unwrap();
    let mut trace = Trace::default();
    let (mut state, mut action) = start;
    for _ in 0..1000 {
        let event = match action {
            Action::Finish(result) => return (result, trace),
            Action::SendCommand(command) => {
                let sent = encrypt_command(&encryption, &command).unwrap();
                let received = decrypt_reply(&encryption, &sent).unwrap();
                assert_eq!(received, command);
                let answer = respond(trace.commands.len(), &received);
                trace.commands.push(received);
                let wire = encrypt_command(&encryption, &answer).unwrap();
                Event::Reply(decrypt_reply(&encryption, &wire))
            }
            Action::WakeOnLan => {
                trace.wake_on_lan_called = true;
                Event::WokeUp(Ok(()))
            }
            Action::Reconnect => {
                trace.reconnect_called = true;
                Event::Reconnected(Ok(()))
            }
            Action::Sleep(ms) => {
                trace.sleeps.push(ms);
                Event::Slept
            }
        };
        let next = step(state, event);
        state = next.0;
        action = next.1;
    }
    panic!("the procedure did not end");
}

#[test]
fn test_power_on_execution_pipeline() {
    let (result, trace) =
        run(PowerOn::start(Some(1)), PowerOn::step, &|_, _| "APP:hdmi1".to_string());
    result.unwrap();
    assert!(trace.wake_on_lan_called);
    assert!(trace.reconnect_called);
    assert_eq!(trace.commands, vec!["CURRENT_APP".to_string()]);
    assert_eq!(trace.sleeps, vec![500]);
}

#[test]
fn test_power_off_retry_loop_until_success() {
    // The TV keeps showing an application for its first answers, then goes off.
    let (result, trace) = run(PowerOff::start(Some(5)), PowerOff::step, &|n, _| {
        if n < 3 { "APP:youtube".to_string() } else { "OFF".to_string() }
    });
    assert!(result.is_ok());
    assert_eq!(trace.commands[0], "POWER off");
    assert_eq!(trace.commands[1], "CURRENT_APP");
    assert_eq!(trace.commands[2], "POWER off");
}

#[test]
fn power_off_gives_up_after_its_attempts() {
    let (result, trace) =
        run(PowerOff::start(Some(2)), PowerOff::step, &|_, _| "APP:youtube".to_string());
    assert!(matches!(result, Err(LgTvError::PowerOff)));
    let power_offs = trace.commands.iter().filter(|c| c.as_str() == "POWER off").count();
    assert_eq!(power_offs, 2);
}

#[test]
fn power_off_without_attempts_fails_at_once() {
    let (result, trace) = run(PowerOff::start(Some(0)), PowerOff::step, &|_, _| String::new());
    assert!(matches!(result, Err(LgTvError::PowerOff)));
    assert!(trace.commands.is_empty());
}

#[test]
fn power_off_passes_on_a_failed_command() {
    let (state, _) = PowerOff::start(None);
    assert_eq!(state.attempts_left, 10);
    let (_, action) = state.step(Event::Reply(Err(LgTvError::SendCommand("gone".to_string()))));
    match action {
        Action::Finish(Err(LgTvError::SendCommand(msg))) => assert_eq!(msg, "gone"),
        other => panic!("unexpected {:?}", other),
    }
}

#[test]
fn probe_asks_retries_plus_one_times_before_giving_up() {
    let (result, trace) = run(Probe::start(3), Probe::step, &|_, _| "OFF".to_string());
    assert!(matches!(result, Err(LgTvError::PowerOff)));
    assert_eq!(trace.commands.len(), 4);
    assert_eq!(trace.sleeps, vec![1000, 1000, 1000]);
}

#[test]
fn probe_counts_an_empty_application_as_off() {
    let (state, _) = Probe::start(0);
    assert_eq!(state.phase, ProbePhase::Asking);
    let (_, action) = state.step(Event::Reply(Ok("APP: Signal:x".to_string())));
    assert!(matches!(action, Action::Finish(Err(LgTvError::PowerOff))));
}

#[test]
fn power_state_follows_the_probe() {
    assert_eq!(POWER_STATE_RETRIES, 5);
    let (result, _) = run(Probe::start(POWER_STATE_RETRIES), Probe::step, &|_, _| {
        "APP:netflix".to_string()
    });
    assert_eq!(power_state_of(&result), PowerStates::On);
    assert_eq!(power_state_of(&Err(LgTvError::PowerOff)), PowerStates::Off);
}

#[test]
fn power_on_reports_a_failed_wake_up_and_reconnection() {
    let (state, action) = PowerOn::start(None);
    assert!(matches!(action, Action::WakeOnLan));
    assert_eq!(state.attempts, 10);
    let (_, action) = state.step(Event::WokeUp(Err("no route".to_string())));
    match action {
        Action::Finish(Err(LgTvError::WakeOnLan(msg))) => assert_eq!(msg, "no route"),
        other => panic!("unexpected {:?}", other),
    }
    let (state, _) = state.step(Event::WokeUp(Ok(())));
    let (state, action) = state.step(Event::Slept);
    assert!(matches!(action, Action::Reconnect));
    let (_, action) = state.step(Event::Reconnected(Err("refused".to_string())));
    match action {
        Action::Finish(Err(LgTvError::TcpConnectionError(msg))) => assert_eq!(msg, "refused"),
        other => panic!("unexpected {:?}", other),
    }
}
