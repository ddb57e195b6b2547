use akagi::cli::{frontend_place, launch_plan, Cli, FrontendPlace, LaunchPlan, Switches};
use akagi::web::arguments::{argument, field, optional, snake_to_camel, Argument, Kind};
use akagi::web::commands::{
    answer, invoke, refuse, Command, Complaint, Dispatch, Failure, Key, Reply,
};
use akagi::web::feed::{Feed, KEEP_ALIVE_SECS};
use akagi::web::upload::{keep_zip, uploaded_file_name, UploadForm};
use serde_json::Value;

fn json(text: &str) -> Value {
    serde_json::from_str(text).unwrap()
}

#[test]
fn uploaded_file_name_keeps_only_the_zip_basename() {
    assert_eq!(uploaded_file_name("mortal-v4.zip"), Some("mortal-v4.zip"));
    assert_eq!(uploaded_file_name(r"C:\fakepath\mortal.zip"), Some("mortal.zip"));
}

#[test]
fn other_file_names_are_not_kept() {
    assert_eq!(uploaded_file_name("a/b/Bot.ZiP"), Some("Bot.ZiP"));
    assert_eq!(uploaded_file_name("..zip"), Some("..zip"));
    assert_eq!(uploaded_file_name("bot.tar.zip"), Some("bot.tar.zip"));
    assert_eq!(uploaded_file_name("\u{9ebb}\u{96c0}.zip"), Some("\u{9ebb}\u{96c0}.zip"));
    for name in ["", "bot", "zip", ".zip", "bot.zipx", "bot.", "..", "bot.zip/", "bot.zip\\x"] {
        assert_eq!(uploaded_file_name(name), None, "{name:?}");
    }
}

#[test]
fn a_name_with_a_colon_depends_on_the_system() {
    let windows = std::path::MAIN_SEPARATOR == '\\';
    let dots = if windows { None } else { Some("C:.zip") };
    assert_eq!(uploaded_file_name("C:.zip"), dots);
    assert_eq!(uploaded_file_name("C:x.zip"), Some("C:x.zip"));
    assert_eq!(uploaded_file_name("a.zip:b"), None);
    for name in ["a1:b.zip", "1:.zip", ":.zip", "C:..zip", "C::.zip", "\u{e9}:.ZIP"] {
        assert_eq!(uploaded_file_name(name), Some(name), "{name:?}");
    }
    assert_eq!(uploaded_file_name("C:.."), None);
}

#[test]
fn a_kept_name_is_kept_again() {
    for name in ["a/b.ZIP", r"C:\x\y.zip", "/t/..zip", "a1:b.zip"] {
        let kept = uploaded_file_name(name).unwrap();
        assert_eq!(uploaded_file_name(kept), Some(kept));
    }
}

#[test]
fn an_archive_is_kept_by_its_extension() {
    assert_eq!(keep_zip("x", Some("ZIP")), Some("x"));
    assert_eq!(keep_zip("", Some("zip")), None);
    assert_eq!(keep_zip("x.zip", Some("zi")), None);
    assert_eq!(keep_zip("x.zip", None), None);
}

#[test]
fn an_upload_needs_its_archive() {
    let mut form = UploadForm::new();
    form.receive_name("Mortal".to_string());
    assert_eq!(form.finish(), Err("missing zip archive".to_string()));

    let mut form = UploadForm::new();
    assert_eq!(form.receive_archive(Some("x/first.zip")), "first.zip");
    form.receive_name("Mortal".to_string());
    assert_eq!(form.receive_archive(Some("second.exe")), "bot.zip");
    assert_eq!(form.finish(), Ok(("bot.zip".to_string(), Some("Mortal".to_string()))));

    let mut form = UploadForm::new();
    form.receive_name("Mortal".to_string());
    form.receive_name(String::new());
    assert_eq!(form.receive_archive(None), "bot.zip");
    assert_eq!(form.finish(), Ok(("bot.zip".to_string(), None)));
}

#[test]
fn snake_names_become_camel_names() {
    assert_eq!(snake_to_camel("new_config"), "newConfig");
    assert_eq!(snake_to_camel("is_tsumo"), "isTsumo");
    assert_eq!(snake_to_camel("name"), "name");
    assert_eq!(snake_to_camel("_a__b_"), "AB");
    assert_eq!(snake_to_camel("a_1b"), "a1b");
    assert_eq!(snake_to_camel("x_\u{e9}"), "x\u{e9}");
    assert_eq!(snake_to_camel(""), "");
}

#[test]
fn an_argument_has_several_names() {
    let all = json(r#"{"c": 1, "my_key": 2, "myKey": 3}"#);
    assert_eq!(argument(&all, "c", "my_key"), Some(&json("1")));
    assert_eq!(argument(&all, "d", "my_key"), Some(&json("2")));
    assert_eq!(argument(&json(r#"{"myKey": 3}"#), "d", "my_key"), Some(&json("3")));
    assert_eq!(argument(&json(r#"{"MyKey": 3}"#), "d", "my_key"), None);
    assert_eq!(argument(&json("[1, 2]"), "c", "my_key"), None);
    assert_eq!(argument(&json("null"), "c", "my_key"), None);
}

fn text_of(read: Result<Argument, String>) -> Result<String, String> {
    match read {
        Ok(Argument::Text(s)) => Ok(s),
        Ok(other) => panic!("{other:?}"),
        Err(m) => Err(m),
    }
}

#[test]
fn fields_are_read_by_their_kind() {
    let args = json(r#"{"name": "bot", "force": true, "limit": 7, "req": {"a": []}}"#);
    assert_eq!(text_of(field(&args, "name", "name", Kind::Text, None)), Ok("bot".into()));
    assert!(matches!(
        field(&args, "force", "force", Kind::Flag, None),
        Ok(Argument::Flag(true))
    ));
    assert!(matches!(
        field(&args, "limit", "limit", Kind::Count, None),
        Ok(Argument::Count(7))
    ));
    match field(&args, "req", "req", Kind::Document, None) {
        Ok(Argument::Document(v)) => assert_eq!(v, &json(r#"{"a": []}"#)),
        other => panic!("{other:?}"),
    }
    assert_eq!(
        text_of(field(&args, "req", "req", Kind::Document, Some("no such form"))),
        Err("invalid req: no such form".into())
    );
}

#[test]
fn values_are_a_map_of_values() {
    let args = json(r#"{"name": "bot", "values": {"a": 1, "b": [null], "c": {"d": "e"}}}"#);
    match invoke("update_bot_settings", &args, &[]).resolve() {
        Ok((Command::UpdateBotSettings, list)) => match &list[1] {
            Some(Argument::Members(m)) => {
                assert_eq!(m.len(), 3);
                assert_eq!(m["a"], json("1"));
                assert_eq!(m["b"], json("[null]"));
                assert_eq!(m["c"], json(r#"{"d": "e"}"#));
            }
            other => panic!("{other:?}"),
        },
        other => panic!("{other:?}"),
    }
    assert_eq!(
        refusal("update_bot_settings", r#"{"name": "bot", "values": [1]}"#, &[]),
        "invalid values: invalid type: sequence, expected a map"
    );
    assert_eq!(
        refusal("update_bot_settings", r#"{"name": "bot", "values": null}"#, &[]),
        "invalid values: invalid type: null, expected a map"
    );
    assert_eq!(
        refusal("update_bot_settings", r#"{"values": 1}"#, &[]),
        "missing argument name"
    );
}

#[test]
fn fields_that_do_not_fit_say_so() {
    let args = json(r#"{"name": 5, "force": "yes", "limit": -1, "wide": 4294967296, "part": 1.5}"#);
    assert_eq!(
        text_of(field(&args, "name", "name", Kind::Text, None)),
        Err("invalid name: invalid type: integer `5`, expected a string".into())
    );
    assert_eq!(
        text_of(field(&args, "force", "force", Kind::Flag, None)),
        Err("invalid force: invalid type: string \"yes\", expected a boolean".into())
    );
    for key in ["limit", "wide", "part"] {
        let read = text_of(field(&args, key, key, Kind::Count, None));
        assert!(read.unwrap_err().starts_with(&format!("invalid {key}: invalid ")));
    }
    assert_eq!(
        text_of(field(&args, "newConfig", "new_config", Kind::Document, None)),
        Err("missing argument newConfig".into())
    );
    let max = json(r#"{"limit": 4294967295}"#);
    assert!(matches!(
        field(&max, "limit", "limit", Kind::Count, None),
        Ok(Argument::Count(u32::MAX))
    ));
}

#[test]
fn optional_fields_may_be_null() {
    let args = json(r#"{"name": null, "proxy": "p", "code": false}"#);
    assert!(matches!(optional(&args, "name", "name", Kind::Text, None), Ok(None)));
    assert!(matches!(optional(&args, "gone", "gone", Kind::Text, None), Ok(None)));
    match optional(&args, "proxy", "proxy", Kind::Text, None) {
        Ok(Some(Argument::Text(s))) => assert_eq!(s, "p"),
        other => panic!("{other:?}"),
    }
    assert_eq!(
        optional(&args, "code", "code", Kind::Text, None).unwrap_err(),
        "invalid code: invalid type: boolean `false`, expected a string"
    );
    assert_eq!(
        text_of(field(&args, "name", "name", Kind::Text, None)),
        Err("invalid name: invalid type: null, expected a string".into())
    );
}

#[test]
fn unknown_commands_are_not_found() {
    let args = json("{}");
    let d = invoke("format_disk", &args, &[]);
    assert!(matches!(&d, Dispatch::Unknown(m) if m == "unknown command format_disk"));
    assert_eq!(
        d.resolve().unwrap_err(),
        Reply {
            status: 404,
            ok: false,
            value: None,
            error: None,
            message: Some("unknown command format_disk".to_string()),
        }
    );
}

#[test]
fn commands_get_their_arguments_in_order() {
    let args = json(r#"{"baseUrl": "u", "key": "k", "review_id": "r", "proxy": null}"#);
    let d = invoke("native_api_review_status", &args, &[]);
    match d.resolve() {
        Ok((command, list)) => {
            assert_eq!(command, Command::NativeApiReviewStatus);
            assert_eq!(list.len(), 4);
            assert!(matches!(&list[0], Some(Argument::Text(s)) if s == "u"));
            assert!(matches!(&list[1], Some(Argument::Text(s)) if s == "k"));
            assert!(matches!(&list[2], Some(Argument::Text(s)) if s == "r"));
            assert!(list[3].is_none());
        }
        other => panic!("{other:?}"),
    }
}

fn refusal(command: &str, args: &str, complaints: &[Complaint]) -> String {
    let args = json(args);
    let d = invoke(command, &args, complaints);
    let reply = d.resolve().unwrap_err();
    assert_eq!((reply.status, reply.ok, reply.value), (400, false, None));
    assert_eq!(reply.error, reply.message);
    reply.message.unwrap()
}

#[test]
fn the_first_bad_argument_is_named() {
    assert_eq!(refusal("set_active_bot", "{}", &[]), "missing argument mode");
    assert_eq!(refusal("set_active_bot", r#"{"mode": "4p"}"#, &[]), "missing argument name");
    assert_eq!(refusal("update_config", "{}", &[]), "missing argument newConfig");
    assert_eq!(refusal("install_bot_from_zip", "{}", &[]), "missing argument zipPath");
    let bad = [Complaint { key: Key::Filter, text: "unknown field".into() }];
    assert_eq!(
        refusal("list_game_history", r#"{"filter": {}, "limit": "x"}"#, &bad),
        "invalid filter: unknown field"
    );
    assert_eq!(
        refusal("list_game_history", r#"{"limit": "x"}"#, &bad),
        "invalid limit: invalid type: string \"x\", expected u32"
    );
}

#[test]
fn every_command_is_known() {
    let names = [
        "get_config",
        "update_config",
        "update_config_preserving_controls",
        "update_autoplay_controls",
        "list_bots",
        "get_bot_settings",
        "update_bot_settings",
        "set_active_bot",
        "install_bot_from_github",
        "install_bot_from_zip",
        "update_bot_from_manifest",
        "sync_bot_deps",
        "start_capture",
        "restart_capture",
        "stop_capture",
        "detect_system_chrome",
        "list_cft_installed",
        "download_chrome_for_testing",
        "remove_chrome_for_testing",
        "get_status",
        "get_capture_status",
        "get_log_dir",
        "open_log_folder",
        "open_external_url",
        "list_log_sessions",
        "read_log_session",
        "read_inspector",
        "get_analysis",
        "get_game_snapshot",
        "compute_bot_hora_score",
        "get_mahgen_view",
        "delete_bot",
        "list_game_history",
        "get_game_history_record",
        "get_game_history_events",
        "delete_game_history_entry",
        "check_for_update",
        "apply_update",
        "native_api_redeem",
        "native_api_key_status",
        "native_api_models",
        "native_api_health",
        "native_api_review_history_game",
        "native_api_review_status",
        "native_api_review_share",
        "native_api_list_shares",
        "native_api_revoke_share",
        "native_api_create_order",
        "native_api_order_result",
        "native_api_create_subscription",
        "native_api_subscription_result",
        "native_api_create_checkout",
        "native_api_checkout_result",
    ];
    let mut seen: Vec<Command> = Vec::new();
    for name in names {
        let command = Command::parse(name).expect(name);
        assert!(!seen.contains(&command), "{name}");
        let camel: String = name
            .split('_')
            .map(|w| format!("{}{}", w[..1].to_uppercase(), &w[1..]))
            .collect();
        assert_eq!(format!("{command:?}"), camel);
        seen.push(command);
    }
    assert_eq!(Command::parse("Get_config"), None);
    assert_eq!(Command::parse(""), None);
}

#[test]
fn parameters_follow_the_commands() {
    let of = |c: Command| -> Vec<(Key, bool)> {
        c.params().into_iter().map(|p| (p.key, p.required)).collect()
    };
    assert!(of(Command::GetConfig).is_empty());
    assert_eq!(
        of(Command::NativeApiRedeem),
        vec![
            (Key::BaseUrl, true),
            (Key::Code, true),
            (Key::Proxy, false),
            (Key::Email, false),
            (Key::RenewKey, false),
        ]
    );
    assert_eq!(
        of(Command::ListGameHistory),
        vec![(Key::Filter, false), (Key::Limit, false), (Key::Offset, false)]
    );
    assert_eq!(of(Command::SyncBotDeps), vec![(Key::Name, true), (Key::Force, true)]);
    assert_eq!((Key::NewConfig.camel(), Key::NewConfig.snake()), ("newConfig", "new_config"));
    assert_eq!((Key::BaseUrl.camel(), Key::BaseUrl.snake()), ("base_url", "base_url"));
    assert_eq!(Key::Redeem.kind(), Kind::Flag);
    assert_eq!(Key::RemainingGames.kind(), Kind::Count);
    assert_eq!(Key::Req.kind(), Kind::Document);
    assert_eq!(Key::Values.kind(), Kind::Members);
    assert_eq!(Key::ZipPath.kind(), Kind::Text);
}

#[test]
fn answers_have_a_status() {
    assert_eq!(
        answer(Ok(json("null"))),
        Reply { status: 200, ok: true, value: Some(json("null")), error: None, message: None }
    );
    let failure = Failure { error: json(r#"{"code": 1}"#), message: "went wrong".to_string() };
    assert_eq!(
        answer(Err(failure)),
        Reply {
            status: 400,
            ok: false,
            value: None,
            error: Some(json(r#"{"code": 1}"#)),
            message: Some("went wrong".to_string()),
        }
    );
    let refused = refuse("no".to_string());
    assert_eq!((refused.status, refused.ok), (400, false));
    assert_eq!((refused.error, refused.message), (Some("no".into()), Some("no".into())));
}

#[test]
fn feeds_have_names() {
    let names: Vec<&str> = [
        Feed::Mjai,
        Feed::BotResponses,
        Feed::BotStatus,
        Feed::CaptureStatus,
        Feed::Notices,
        Feed::Config,
        Feed::Analysis,
        Feed::History,
        Feed::Logs,
        Feed::Inspector,
    ]
    .into_iter()
    .map(Feed::event)
    .collect();
    assert_eq!(
        names,
        vec![
            "mjai-event",
            "bot-response",
            "bot-status",
            "capture-status",
            "notify",
            "config-updated",
            "analysis-result",
            "history-recorded",
            "log-entry",
            "inspector-entry",
        ]
    );
    assert_eq!(KEEP_ALIVE_SECS, 15);
}

#[test]
fn the_web_ui_stays_on_this_machine() {
    let cli = Cli { config: None, port: 8080, no_open: true };
    let plan = launch_plan(&cli, Switches { bot: true, autoplay: false, proxy: true });
    assert_eq!(
        plan,
        LaunchPlan {
            start_bot: true,
            start_autoplay: false,
            start_capture: true,
            host: (127, 0, 0, 1),
            port: 8080,
            open_browser: false,
        }
    );
    let plain = Cli::default();
    assert_eq!((plain.config.is_none(), plain.port, plain.no_open), (true, 3000, false));
}

#[test]
fn the_web_ui_lies_beside_the_program_or_where_it_was_built() {
    assert_eq!(frontend_place(Some(true), true), Some(FrontendPlace::Adjacent));
    assert_eq!(frontend_place(Some(true), false), Some(FrontendPlace::Adjacent));
    assert_eq!(frontend_place(Some(false), true), Some(FrontendPlace::Built));
    assert_eq!(frontend_place(None, true), Some(FrontendPlace::Built));
    assert_eq!(frontend_place(None, false), None);
}
