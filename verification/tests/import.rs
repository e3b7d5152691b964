use aug_session_sync::error::{ApiFailure, ImportError, MissingFieldError, RequiredField, StoreError};
use aug_session_sync::http::ApiReply;
use aug_session_sync::remote_import::{
    check_envelope, continue_import, import_from_remote, merge, ImportAction, ImportEvent,
    ImportResult, ImportState, ImportStep, RemoteApiResponse,
};
use aug_session_sync::token_manager::{PortalInfo, RemoteTokenRecord, TokenRecord};

fn blank() -> RemoteTokenRecord {
    RemoteTokenRecord {
        id: None,
        tenant_url: None,
        access_token: None,
        created_at: None,
        updated_at: None,
        portal_url: None,
        ban_status: None,
        portal_info: None,
        email_note: None,
        tag_name: None,
        tag_color: None,
        auth_session: None,
        suspensions: None,
        skip_check: None,
        balance_color_mode: None,
        tenant_url_alt: None,
        access_token_alt: None,
        auth_session_alt: None,
        email_note_alt: None,
        ban_status_alt: None,
    }
}

fn text(s: &str) -> Option<String> {
    Some(s.to_string())
}

fn remote(id: &str, session: &str, created_at: &str) -> RemoteTokenRecord {
    let mut r = blank();
    r.id = text(id);
    r.auth_session = text(session);
    r.created_at = text(created_at);
    r
}

fn local(id: &str, session: &str, created_at: &str) -> TokenRecord {
    TokenRecord {
        id: id.to_string(),
        tenant_url: String::new(),
        access_token: String::new(),
        created_at: created_at.to_string(),
        updated_at: created_at.to_string(),
        portal_url: None,
        ban_status: "ACTIVE".to_string(),
        portal_info: None,
        email_note: None,
        tag_name: None,
        tag_color: None,
        auth_session: session.to_string(),
        suspensions: None,
        skip_check: false,
        balance_color_mode: None,
    }
}

fn reply(status: u16, envelope: RemoteApiResponse) -> Result<ApiReply<RemoteApiResponse>, String> {
    Ok(ApiReply { status, body: String::new(), parsed: Ok(envelope) })
}

#[test]
fn minimal_record_gets_the_defaults() {
    let made = remote("1", "sA", "2024-01-01").to_local_token().unwrap();
    assert_eq!(made, local("1", "sA", "2024-01-01"));
    assert_eq!(made.tenant_url, "");
    assert_eq!(made.access_token, "");
    assert_eq!(made.updated_at, "2024-01-01");
    assert_eq!(made.ban_status, "ACTIVE");
    assert!(!made.skip_check);
}

#[test]
fn full_record_is_taken_over_as_it_is() {
    let portal = PortalInfo { credits_balance: Some(12), expiry_date: text("2025-06-01") };
    let r = RemoteTokenRecord {
        id: text("7"),
        tenant_url: text("https://t.example/"),
        access_token: text("tok"),
        created_at: text("2024-01-01"),
        updated_at: text("2024-02-02"),
        portal_url: text("https://portal.example"),
        ban_status: text("BANNED"),
        portal_info: Some(portal.clone()),
        email_note: text("a@b.c"),
        tag_name: text("work"),
        tag_color: text("#fff"),
        auth_session: text("sess"),
        suspensions: text("none"),
        skip_check: Some(true),
        balance_color_mode: text("dark"),
        tenant_url_alt: None,
        access_token_alt: None,
        auth_session_alt: None,
        email_note_alt: None,
        ban_status_alt: None,
    };
    let expected = TokenRecord {
        id: "7".to_string(),
        tenant_url: "https://t.example/".to_string(),
        access_token: "tok".to_string(),
        created_at: "2024-01-01".to_string(),
        updated_at: "2024-02-02".to_string(),
        portal_url: text("https://portal.example"),
        ban_status: "BANNED".to_string(),
        portal_info: Some(portal),
        email_note: text("a@b.c"),
        tag_name: text("work"),
        tag_color: text("#fff"),
        auth_session: "sess".to_string(),
        suspensions: text("none"),
        skip_check: true,
        balance_color_mode: text("dark"),
    };
    assert_eq!(r.to_local_token(), Ok(expected));
}

#[test]
fn older_spellings_are_accepted() {
    let mut r = blank();
    r.id = text("1");
    r.created_at = text("2024-01-01");
    r.auth_session_alt = text("sess-alt");
    r.tenant_url_alt = text("https://alt.example/");
    r.access_token_alt = text("tok-alt");
    r.email_note_alt = text("alt@b.c");
    r.ban_status_alt = text("SUSPENDED");
    let made = r.to_local_token().unwrap();
    assert_eq!(made.auth_session, "sess-alt");
    assert_eq!(made.tenant_url, "https://alt.example/");
    assert_eq!(made.access_token, "tok-alt");
    assert_eq!(made.email_note, text("alt@b.c"));
    assert_eq!(made.ban_status, "SUSPENDED");
}

#[test]
fn canonical_spelling_wins_over_the_older_one() {
    let mut r = remote("1", "sess", "2024-01-01");
    r.auth_session_alt = text("sess-alt");
    r.tenant_url = text("https://t.example/");
    r.tenant_url_alt = text("https://alt.example/");
    r.access_token = text("tok");
    r.access_token_alt = text("tok-alt");
    r.email_note = text("a@b.c");
    r.email_note_alt = text("alt@b.c");
    r.ban_status = text("BANNED");
    r.ban_status_alt = text("SUSPENDED");
    let made = r.to_local_token().unwrap();
    assert_eq!(made.auth_session, "sess");
    assert_eq!(made.tenant_url, "https://t.example/");
    assert_eq!(made.access_token, "tok");
    assert_eq!(made.email_note, text("a@b.c"));
    assert_eq!(made.ban_status, "BANNED");
}

#[test]
fn missing_required_fields_are_named_in_order() {
    assert_eq!(
        blank().to_local_token(),
        Err(MissingFieldError { field: RequiredField::Id })
    );
    let mut r = blank();
    r.id = text("1");
    assert_eq!(r.to_local_token(), Err(MissingFieldError { field: RequiredField::AuthSession }));
    r.auth_session = text("s");
    assert_eq!(r.to_local_token(), Err(MissingFieldError { field: RequiredField::CreatedAt }));
    r.created_at = text("2024-01-01");
    assert!(r.to_local_token().is_ok());
    let mut no_id = remote("1", "s", "2024-01-01");
    no_id.id = None;
    assert_eq!(no_id.to_local_token(), Err(MissingFieldError { field: RequiredField::Id }));
}

#[test]
fn missing_field_in_words() {
    assert_eq!(MissingFieldError { field: RequiredField::Id }.message(), "缺少必需字段: id");
    assert_eq!(
        MissingFieldError { field: RequiredField::AuthSession }.message(),
        "缺少必需字段: auth_session"
    );
    assert_eq!(
        MissingFieldError { field: RequiredField::CreatedAt }.message(),
        "缺少必需字段: created_at"
    );
}

#[test]
fn batch_with_a_repeated_session_against_an_empty_store() {
    let first = remote("1", "sA", "2024-01-01");
    let mut second = remote("2", "sA", "2024-01-02");
    second.access_token_alt = text("tok2");
    let mut tokens = Vec::new();
    let result = merge(&mut tokens, &vec![first, second]);
    assert_eq!(result, ImportResult { imported: 1, skipped: 1 });
    assert_eq!(tokens.len(), 1);
    assert_eq!(tokens[0].id, "1");
    assert_eq!(tokens[0].ban_status, "ACTIVE");
    assert!(!tokens[0].skip_check);
    assert_eq!(tokens[0].updated_at, "2024-01-01");
    assert_eq!(tokens[0].auth_session, "sA");
}

#[test]
fn merge_counts_incomplete_and_duplicate_records_as_skipped() {
    // five records: four complete, of which one is in the store already and
    // one repeats an earlier record of the batch
    let mut incomplete = remote("x", "sX", "2024-01-01");
    incomplete.created_at = None;
    let batch = vec![
        remote("1", "sA", "2024-01-01"),
        incomplete,
        remote("2", "sOld", "2024-01-02"),
        remote("3", "sB", "2024-01-03"),
        remote("4", "sA", "2024-01-04"),
    ];
    let mut tokens = vec![local("0", "sOld", "2023-12-31")];
    let result = merge(&mut tokens, &batch);
    assert_eq!(result, ImportResult { imported: 2, skipped: 3 });
    assert_eq!(
        tokens,
        vec![
            local("0", "sOld", "2023-12-31"),
            local("1", "sA", "2024-01-01"),
            local("3", "sB", "2024-01-03"),
        ]
    );
}

#[test]
fn merge_never_overwrites_an_existing_record() {
    let mut kept = local("0", "sA", "2023-12-31");
    kept.access_token = "old".to_string();
    let mut newer = remote("9", "sA", "2024-05-05");
    newer.access_token = text("new");
    let mut tokens = vec![kept.clone()];
    let result = merge(&mut tokens, &vec![newer]);
    assert_eq!(result, ImportResult { imported: 0, skipped: 1 });
    assert_eq!(tokens, vec![kept]);
}

#[test]
fn merge_of_an_empty_batch_changes_nothing() {
    let mut tokens = vec![local("0", "sA", "2023-12-31")];
    let result = merge(&mut tokens, &Vec::new());
    assert_eq!(result, ImportResult { imported: 0, skipped: 0 });
    assert_eq!(tokens, vec![local("0", "sA", "2023-12-31")]);
}

#[test]
fn an_incomplete_record_does_not_block_a_later_one_of_its_session() {
    let mut incomplete = remote("1", "sA", "2024-01-01");
    incomplete.id = None;
    let mut tokens = Vec::new();
    let result = merge(&mut tokens, &vec![incomplete, remote("2", "sA", "2024-01-02")]);
    assert_eq!(result, ImportResult { imported: 1, skipped: 1 });
    assert_eq!(tokens, vec![local("2", "sA", "2024-01-02")]);
}

#[test]
fn envelope_is_checked_before_anything_else() {
    assert_eq!(
        check_envelope(Err("timed out".to_string())),
        Err(ImportError::RemoteFetch(ApiFailure::Transport("timed out".to_string())))
    );
    let not_found: Result<ApiReply<RemoteApiResponse>, String> = Ok(ApiReply {
        status: 404,
        body: "nothing here".to_string(),
        parsed: Ok(RemoteApiResponse { status: 1, data: Vec::new() }),
    });
    assert_eq!(
        check_envelope(not_found),
        Err(ImportError::RemoteFetch(ApiFailure::Status {
            code: 404,
            body: "nothing here".to_string()
        }))
    );
    let garbled: Result<ApiReply<RemoteApiResponse>, String> =
        Ok(ApiReply { status: 200, body: "<html>".to_string(), parsed: Err("expected value".to_string()) });
    assert_eq!(
        check_envelope(garbled),
        Err(ImportError::RemoteFetch(ApiFailure::Malformed("expected value".to_string())))
    );
    assert_eq!(
        check_envelope(reply(200, RemoteApiResponse { status: 0, data: vec![remote("1", "s", "d")] })),
        Err(ImportError::RemoteStatus(0))
    );
    assert_eq!(
        check_envelope(reply(299, RemoteApiResponse { status: 1, data: vec![remote("1", "s", "d")] })),
        Ok(vec![remote("1", "s", "d")])
    );
    assert!(check_envelope(reply(199, RemoteApiResponse { status: 1, data: Vec::new() })).is_err());
    assert!(check_envelope(reply(300, RemoteApiResponse { status: 1, data: Vec::new() })).is_err());
}

#[test]
fn import_runs_fetch_read_write_finish() {
    let begun = import_from_remote("https://remote.example/api".to_string());
    assert_eq!(begun.state, ImportState::AwaitingReply);
    assert_eq!(begun.action, ImportAction::Fetch { url: "https://remote.example/api".to_string() });

    let first = remote("1", "sA", "2024-01-01");
    let mut second = remote("2", "sA", "2024-01-02");
    second.access_token_alt = text("tok2");
    let batch = vec![first, second];
    let after_reply = continue_import(
        begun.state,
        ImportEvent::Reply(reply(200, RemoteApiResponse { status: 1, data: batch.clone() })),
    );
    assert_eq!(after_reply.action, ImportAction::ReadStore);
    assert_eq!(after_reply.state, ImportState::AwaitingStore { batch });

    let after_read = continue_import(after_reply.state, ImportEvent::StoreRead(Ok(Vec::new())));
    assert_eq!(after_read.action, ImportAction::WriteStore(vec![local("1", "sA", "2024-01-01")]));
    assert_eq!(
        after_read.state,
        ImportState::AwaitingSave { result: ImportResult { imported: 1, skipped: 1 } }
    );

    let done = continue_import(after_read.state, ImportEvent::StoreWritten(Ok(())));
    assert_eq!(
        done,
        ImportStep {
            state: ImportState::Finished,
            action: ImportAction::Finish(Ok(ImportResult { imported: 1, skipped: 1 })),
        }
    );
}

#[test]
fn import_stops_at_the_first_failure() {
    let begun = import_from_remote("u".to_string());
    let failed = continue_import(begun.state, ImportEvent::Reply(Err("refused".to_string())));
    assert_eq!(
        failed,
        ImportStep {
            state: ImportState::Finished,
            action: ImportAction::Finish(Err(ImportError::RemoteFetch(ApiFailure::Transport(
                "refused".to_string()
            )))),
        }
    );

    let corrupt = continue_import(
        ImportState::AwaitingStore { batch: vec![remote("1", "sA", "d")] },
        ImportEvent::StoreRead(Err(StoreError::Corrupt("bad".to_string()))),
    );
    assert_eq!(
        corrupt.action,
        ImportAction::Finish(Err(ImportError::Store(StoreError::Corrupt("bad".to_string()))))
    );
    assert_eq!(corrupt.state, ImportState::Finished);

    let unwritten = continue_import(
        ImportState::AwaitingSave { result: ImportResult { imported: 3, skipped: 0 } },
        ImportEvent::StoreWritten(Err(StoreError::Unavailable("disk full".to_string()))),
    );
    assert_eq!(
        unwritten.action,
        ImportAction::Finish(Err(ImportError::Store(StoreError::Unavailable(
            "disk full".to_string()
        ))))
    );
}

#[test]
fn import_refuses_events_out_of_turn() {
    let out_of_turn = ImportStep {
        state: ImportState::Finished,
        action: ImportAction::Finish(Err(ImportError::OutOfTurn)),
    };
    assert_eq!(continue_import(ImportState::Finished, ImportEvent::StoreWritten(Ok(()))), out_of_turn);
    assert_eq!(
        continue_import(ImportState::AwaitingReply, ImportEvent::StoreRead(Ok(Vec::new()))),
        out_of_turn
    );
    assert_eq!(
        continue_import(
            ImportState::AwaitingSave { result: ImportResult { imported: 0, skipped: 0 } },
            ImportEvent::Reply(Err("late".to_string()))
        ),
        out_of_turn
    );
}

#[test]
fn import_errors_in_words() {
    assert_eq!(
        ImportError::RemoteFetch(ApiFailure::Transport("timed out".to_string())).message(),
        "请求远端 API 失败: timed out"
    );
    assert_eq!(
        ImportError::RemoteFetch(ApiFailure::Status { code: 404, body: "x".to_string() }).message(),
        "远端 API 返回错误: 404"
    );
    assert_eq!(
        ImportError::RemoteFetch(ApiFailure::Malformed("EOF".to_string())).message(),
        "解析远端 API 响应失败: EOF"
    );
    assert_eq!(ImportError::RemoteStatus(0).message(), "远端 API 返回失败状态");
    assert_eq!(ImportError::Store(StoreError::NotFound).message(), "未找到指定的 Token 记录");
}
