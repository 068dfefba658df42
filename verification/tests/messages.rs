use killswitch::config::{Config, DEFAULT_PORT, DEFAULT_RESTORE_DELAY, REQUEST_BUFFER_SIZE};
use killswitch::hooks::{
    classify_outcome, hook_outcome_line, hook_started_line, HookKind, HookOutcome,
};
use killswitch::reply::{schedule_restore, Action, Verdict};
use killswitch::response::{Response, Status};

#[test]
fn status_codes() {
    assert_eq!(Status::Success.code(), 200);
    assert_eq!(Status::NotFound.code(), 404);
    assert_eq!(Status::Success.head(), "HTTP/1.1 200 OK\r\n\r\n");
    assert_eq!(Status::NotFound.head(), "HTTP/1.1 404 Not Found\r\n\r\n");
}

#[test]
fn responses_on_the_wire() {
    assert_eq!(
        Response::ok(String::from("AbCdEfGhIjKl")).to_http(),
        "HTTP/1.1 200 OK\r\n\r\nAbCdEfGhIjKl"
    );
    assert_eq!(Response::ok(String::new()).to_http(), "HTTP/1.1 200 OK\r\n\r\n");
    assert_eq!(
        Response::started().to_http(),
        "HTTP/1.1 200 OK\r\n\r\nKillswitch is started\n"
    );
    assert_eq!(
        Response::not_found().to_http(),
        "HTTP/1.1 404 Not Found\r\n\r\n404 - Url path not found or secret is not valid\n"
    );
}

#[test]
fn response_bodies_are_verbatim() {
    let body = String::from("line one\r\nline two\n\ttab é");
    let response = Response::ok(body.clone());
    assert_eq!(response.status, Status::Success);
    assert_eq!(response.body, body);
    assert_eq!(response.to_http(), format!("HTTP/1.1 200 OK\r\n\r\n{}", body));
}

#[test]
fn configuration_defaults() {
    assert_eq!(DEFAULT_PORT, 8000);
    assert_eq!(DEFAULT_RESTORE_DELAY, 300);
    assert_eq!(REQUEST_BUFFER_SIZE, 1024);
    let config =
        Config::with_defaults(String::from("s"), String::from("k.sh"), String::from("r.sh"));
    assert_eq!(
        config,
        Config {
            port: 8000,
            first_secret: String::from("s"),
            kill_hook: String::from("k.sh"),
            restore_hook: String::from("r.sh"),
            restore_delay: 300,
        }
    );
}

#[test]
fn configuration_takes_values_as_given() {
    let config = Config::new(
        9090,
        String::from("open-sesame"),
        String::from("echo killed"),
        String::from("echo restored"),
        2,
    );
    assert_eq!(config.port, 9090);
    assert_eq!(config.first_secret, "open-sesame");
    assert_eq!(config.kill_hook, "echo killed");
    assert_eq!(config.restore_hook, "echo restored");
    assert_eq!(config.restore_delay, 2);
}

#[test]
fn hook_labels() {
    assert_eq!(HookKind::Kill.label(), "kill");
    assert_eq!(HookKind::Restore.label(), "restore");
}

#[test]
fn actions_name_their_hook() {
    let kill = Action::Kill { command: String::from("echo killed") };
    assert_eq!(kill.kind(), HookKind::Kill);
    assert_eq!(kill.command(), "echo killed");
    assert_eq!(kill.delay_secs(), 0);
    let restore = schedule_restore("echo restored", 2);
    assert_eq!(
        restore,
        Action::RestoreAfter { command: String::from("echo restored"), delay_secs: 2 }
    );
    assert_eq!(restore.kind(), HookKind::Restore);
    assert_eq!(restore.command(), "echo restored");
    assert_eq!(restore.delay_secs(), 2);
    assert_eq!(schedule_restore("r", u64::MAX).delay_secs(), u64::MAX);
}

#[test]
fn hook_log_lines() {
    assert_eq!(
        hook_started_line(HookKind::Kill, "/opt/hooks/kill.sh"),
        "Executing kill hook: /opt/hooks/kill.sh"
    );
    assert_eq!(
        hook_started_line(HookKind::Restore, "echo restored"),
        "Executing restore hook: echo restored"
    );
    assert_eq!(
        hook_outcome_line(HookKind::Kill, &HookOutcome::Succeeded),
        "kill hook executed successfully"
    );
    assert_eq!(
        hook_outcome_line(HookKind::Restore, &HookOutcome::Succeeded),
        "restore hook executed successfully"
    );
    assert_eq!(
        hook_outcome_line(
            HookKind::Kill,
            &HookOutcome::Failed { status: String::from("ExitStatus(unix_wait_status(256))") }
        ),
        "kill hook failed with status: ExitStatus(unix_wait_status(256))"
    );
    assert_eq!(
        hook_outcome_line(
            HookKind::Restore,
            &HookOutcome::NotStarted { error: String::from("No such file or directory") }
        ),
        "Error executing restore hook: No such file or directory"
    );
}

#[test]
fn hook_outcomes() {
    assert_eq!(classify_outcome(Ok((true, String::from("exit status: 0")))), HookOutcome::Succeeded);
    assert_eq!(
        classify_outcome(Ok((false, String::from("exit status: 3")))),
        HookOutcome::Failed { status: String::from("exit status: 3") }
    );
    assert_eq!(
        classify_outcome(Err(String::from("not found"))),
        HookOutcome::NotStarted { error: String::from("not found") }
    );
}

#[test]
fn verdict_log_lines() {
    assert_eq!(
        Verdict::FirstSecret.log_line(),
        "Killswitch 1st secret: OK - Waiting for the 2nd secret to start process"
    );
    assert_eq!(
        Verdict::SecondSecret.log_line(),
        "Killswitch 2nd secret: OK - starting kill switch process"
    );
    assert_eq!(Verdict::Invalid.log_line(), "Url path not found or secret is not valid");
}
