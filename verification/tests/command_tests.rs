use workflow_engine::commands::append_file_command::{prepare_append_file, AppendFileCommand};
use workflow_engine::commands::delete_file_command::{prepare_delete_file, DeleteFileCommand};
use workflow_engine::commands::log_command::{outputs_log, prepare_log, LogCommand};
use workflow_engine::commands::read_file_command::{
    outputs_read_file, prepare_read_file, ReadFileCommand,
};
use workflow_engine::commands::rest_api_command::{
    outputs_rest_api, parse_method, prepare_rest_api, RestApiCommand,
};
use workflow_engine::commands::write_file_command::{prepare_write_file, WriteFileCommand};
use workflow_engine::commands::{
    eval_inputs, get_input, outputs_status, register_default_commands, CommandAction, CommandKind,
    CommandRegistry, WorkflowCommand,
};
use workflow_engine::context::Context;
use workflow_engine::effect::{Effect, HttpMethod, HttpResponse, IoOutcome};
use workflow_engine::value::Value;

fn vals(pairs: &[(&str, &str)]) -> Vec<(String, String)> {
    pairs.iter().map(|(k, v)| (k.to_string(), v.to_string())).collect()
}

#[test]
fn registry_holds_every_builtin() {
    let reg = register_default_commands();
    assert_eq!(reg.lookup("Log"), Some(CommandKind::Log));
    assert_eq!(reg.lookup("ReadFile"), Some(CommandKind::ReadFile));
    assert_eq!(reg.lookup("WriteFile"), Some(CommandKind::WriteFile));
    assert_eq!(reg.lookup("AppendFile"), Some(CommandKind::AppendFile));
    assert_eq!(reg.lookup("DeleteFile"), Some(CommandKind::DeleteFile));
    assert_eq!(reg.lookup("RestApi"), Some(CommandKind::RestApi));
    assert_eq!(reg.lookup("Nope"), None);
    assert_eq!(reg.lookup("log"), None);
}

#[test]
fn registry_register_replaces_by_name() {
    let mut reg = CommandRegistry::new();
    assert_eq!(reg.lookup("X"), None);
    reg.register("X", CommandKind::Log);
    assert_eq!(reg.lookup("X"), Some(CommandKind::Log));
    reg.register("X", CommandKind::ReadFile);
    assert_eq!(reg.lookup("X"), Some(CommandKind::ReadFile));
}

#[test]
fn command_names_match_registry_keys() {
    assert_eq!(LogCommand.name(), "Log");
    assert_eq!(ReadFileCommand.name(), "ReadFile");
    assert_eq!(WriteFileCommand.name(), "WriteFile");
    assert_eq!(AppendFileCommand.name(), "AppendFile");
    assert_eq!(DeleteFileCommand.name(), "DeleteFile");
    assert_eq!(RestApiCommand.name(), "RestApi");
}

#[test]
fn get_input_finds_first_match() {
    let v = vals(&[("a", "1"), ("b", "2"), ("a", "3")]);
    assert_eq!(get_input(&v, "a"), Some(&"1".to_string()));
    assert_eq!(get_input(&v, "b"), Some(&"2".to_string()));
    assert_eq!(get_input(&v, "c"), None);
}

#[test]
fn prepare_log_requires_message() {
    match prepare_log(&vals(&[("message", "hello")])) {
        Ok(CommandAction::Emit { message }) => assert_eq!(message, "hello"),
        other => panic!("unexpected: {:?}", other),
    }
    assert!(prepare_log(&vals(&[("text", "hello")])).is_err());
}

#[test]
fn prepare_file_commands_require_their_inputs() {
    match prepare_read_file(&vals(&[("path", "/tmp/a")])) {
        Ok(CommandAction::Io { effect: Effect::ReadFile { path } }) => assert_eq!(path, "/tmp/a"),
        other => panic!("unexpected: {:?}", other),
    }
    assert!(prepare_read_file(&vals(&[])).is_err());

    match prepare_write_file(&vals(&[("path", "/tmp/a"), ("text", "body")])) {
        Ok(CommandAction::Io { effect: Effect::WriteFile { path, content } }) => {
            assert_eq!(path, "/tmp/a");
            assert_eq!(content, "body");
        }
        other => panic!("unexpected: {:?}", other),
    }
    assert!(prepare_write_file(&vals(&[("path", "/tmp/a")])).is_err());

    match prepare_append_file(&vals(&[("path", "p"), ("text", "t")])) {
        Ok(CommandAction::Io { effect: Effect::AppendFile { path, content } }) => {
            assert_eq!(path, "p");
            assert_eq!(content, "t");
        }
        other => panic!("unexpected: {:?}", other),
    }
    assert!(prepare_append_file(&vals(&[("text", "t")])).is_err());

    match prepare_delete_file(&vals(&[("path", "p")])) {
        Ok(CommandAction::Io { effect: Effect::DeleteFile { path } }) => assert_eq!(path, "p"),
        other => panic!("unexpected: {:?}", other),
    }
    assert!(prepare_delete_file(&vals(&[])).is_err());
}

#[test]
fn parse_method_is_case_insensitive() {
    assert_eq!(parse_method("GET"), Some(HttpMethod::Get));
    assert_eq!(parse_method("get"), Some(HttpMethod::Get));
    assert_eq!(parse_method("PoSt"), Some(HttpMethod::Post));
    assert_eq!(parse_method("put"), Some(HttpMethod::Put));
    assert_eq!(parse_method("Delete"), Some(HttpMethod::Delete));
    assert_eq!(parse_method("PATCH"), Some(HttpMethod::Patch));
    assert_eq!(parse_method("TRACE"), None);
    assert_eq!(parse_method(""), None);
    assert_eq!(parse_method("GETX"), None);
}

#[test]
fn prepare_rest_api_builds_the_request() {
    let v = vals(&[
        ("method", "post"),
        ("url", "http://localhost/x"),
        ("body", "payload"),
        ("header:X-Token", "abc"),
        ("query:page", "2"),
        ("auth_username", "user"),
        ("auth_password", "secret"),
    ]);
    match prepare_rest_api(&v) {
        Ok(CommandAction::Io { effect: Effect::Http { request } }) => {
            assert_eq!(request.method, HttpMethod::Post);
            assert_eq!(request.url, "http://localhost/x");
            assert_eq!(request.body.as_deref(), Some("payload"));
            assert_eq!(request.headers, vec![("X-Token".to_string(), "abc".to_string())]);
            assert_eq!(request.query, vec![("page".to_string(), "2".to_string())]);
            let auth = request.auth.expect("auth expected");
            assert_eq!(auth.username, "user");
            assert_eq!(auth.password, "secret");
        }
        other => panic!("unexpected: {:?}", other),
    }
}

#[test]
fn prepare_rest_api_rejects_bad_configuration() {
    assert!(prepare_rest_api(&vals(&[("url", "http://x")])).is_err());
    assert!(prepare_rest_api(&vals(&[("method", "GET")])).is_err());
    assert!(prepare_rest_api(&vals(&[("method", "TRACE"), ("url", "http://x")])).is_err());
}

#[test]
fn prepare_rest_api_minimal_request() {
    match prepare_rest_api(&vals(&[("method", "GET"), ("url", "u")])) {
        Ok(CommandAction::Io { effect: Effect::Http { request } }) => {
            assert_eq!(request.method, HttpMethod::Get);
            assert!(request.headers.is_empty());
            assert!(request.query.is_empty());
            assert!(request.body.is_none());
            assert!(request.auth.is_none());
        }
        other => panic!("unexpected: {:?}", other),
    }
}

#[test]
fn outputs_capture_runtime_failures() {
    let ok = outputs_read_file(&IoOutcome::Content(Ok("data".to_string())));
    assert_eq!(ok[0].0, "success");
    assert!(matches!(ok[0].1, Value::Bool(true)));
    assert!(matches!(&ok[1].1, Value::Str(s) if s == "data"));
    assert!(matches!(&ok[2].1, Value::Str(s) if s.is_empty()));

    let err = outputs_read_file(&IoOutcome::Content(Err("gone".to_string())));
    assert!(matches!(err[0].1, Value::Bool(false)));
    assert!(matches!(&err[2].1, Value::Str(s) if s == "gone"));

    let done = outputs_status(&IoOutcome::Done(Ok(())));
    assert_eq!(done[0].0, "success");
    assert!(matches!(done[0].1, Value::Bool(true)));

    let failed = outputs_status(&IoOutcome::Done(Err("denied".to_string())));
    assert!(matches!(failed[0].1, Value::Bool(false)));
    assert!(matches!(&failed[1].1, Value::Str(s) if s == "denied"));

    let http = outputs_rest_api(&IoOutcome::Http(Ok(HttpResponse {
        status: 204,
        body: "done".to_string(),
    })));
    assert!(matches!(http[0].1, Value::Bool(true)));
    assert!(matches!(http[1].1, Value::Int(204)));
    assert!(matches!(&http[2].1, Value::Str(s) if s == "done"));

    let net = outputs_rest_api(&IoOutcome::Http(Err("refused".to_string())));
    assert!(matches!(net[0].1, Value::Bool(false)));
    assert!(matches!(net[1].1, Value::Int(0)));

    // A host answering with a mismatched outcome is a captured failure too.
    let odd = outputs_read_file(&IoOutcome::Done(Ok(())));
    assert!(matches!(odd[0].1, Value::Bool(false)));
    assert!(matches!(&odd[2].1, Value::Str(s) if s == "unexpected outcome from host"));
}

#[test]
fn outputs_log_echoes_message() {
    let outs = outputs_log(&"note".to_string());
    assert_eq!(outs.len(), 1);
    assert_eq!(outs[0].0, "message");
    assert!(matches!(&outs[0].1, Value::Str(s) if s == "note"));
}

#[test]
fn eval_inputs_empty_configuration_succeeds() {
    let ctx = Context::new();
    assert_eq!(eval_inputs(&ctx, &Vec::new()), Ok(Vec::new()));
}

#[test]
fn eval_inputs_fails_on_the_first_bad_expression() {
    let ctx = Context::new();
    let r = eval_inputs(&ctx, &vals(&[("a", "\"ok\""), ("b", "no_such_variable")]));
    assert!(r.is_err());
    let ok = eval_inputs(&ctx, &vals(&[("a", "\"ok\"")])).expect("evaluation expected to succeed");
    assert_eq!(ok, vals(&[("a", "ok")]));
}
