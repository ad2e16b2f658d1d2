use duckymerone::app_error::AppError;
use duckymerone::db::{PlayerStore, list_players};
use duckymerone::routes::{
    CreatePlayerPayload, UpdatePlayerPayload, create_player_handler, delete_player_handler,
    get_player_handler, list_players_handler, player_exists_handler, update_player_name_handler,
};
use duckymerone::sql::{
    delete_player_statement, insert_player_statement, list_players_statement,
    player_exists_statement, select_player_by_token_statement, update_player_name_statement,
};

#[test]
fn end_to_end_scenario() {
    let mut store = PlayerStore::new();

    let created = create_player_handler(
        &mut store,
        &CreatePlayerPayload { name: String::from("Alice") },
    )
    .unwrap();
    assert_eq!(created.status, 200);
    assert!(created.body.contains("\"name\":\"Alice\""));
    assert!(created.body.contains("\"token\":\""));

    let token = list_players(&store).unwrap().remove(0).token;

    let fetched = get_player_handler(&store, &token).unwrap();
    assert_eq!(fetched.status, 200);
    assert!(fetched.body.contains("\"name\":\"Alice\""));

    let updated = update_player_name_handler(
        &mut store,
        &token,
        &UpdatePlayerPayload { new_name: String::from("Chuck") },
    )
    .unwrap();
    assert_eq!(updated.status, 204);
    assert!(updated.body.is_empty());

    let refetched = get_player_handler(&store, &token).unwrap();
    assert_eq!(refetched.status, 200);
    assert!(refetched.body.contains("\"name\":\"Chuck\""));

    let deleted = delete_player_handler(&mut store, &token).unwrap();
    assert_eq!(deleted.status, 204);
    assert!(deleted.body.is_empty());

    let gone = get_player_handler(&store, &token).unwrap_err();
    let resp = gone.into_response();
    assert_eq!(resp.status, 500);
    assert!(resp.body.starts_with("{\"error\":\""));
}

#[test]
fn exists_handler_answers_bare_booleans() {
    let mut store = PlayerStore::new();
    let created =
        create_player_handler(&mut store, &CreatePlayerPayload { name: String::from("Bob") })
            .unwrap();
    assert_eq!(created.status, 200);
    let token = list_players(&store).unwrap().remove(0).token;

    let yes = player_exists_handler(&store, &token).unwrap();
    assert_eq!(yes.status, 200);
    assert_eq!(yes.body, "true");

    let no = player_exists_handler(&store, "never-issued").unwrap();
    assert_eq!(no.status, 200);
    assert_eq!(no.body, "false");
}

#[test]
fn list_handler_serializes_the_whole_table() {
    let mut store = PlayerStore::new();
    let empty = list_players_handler(&store).unwrap();
    assert_eq!(empty.status, 200);
    assert_eq!(empty.body, "[]");

    create_player_handler(&mut store, &CreatePlayerPayload { name: String::from("A") }).unwrap();
    create_player_handler(&mut store, &CreatePlayerPayload { name: String::from("B") }).unwrap();
    let full = list_players_handler(&store).unwrap();
    assert_eq!(full.status, 200);
    assert!(full.body.starts_with("[{\"id\":1,\"name\":\"A\""));
    assert!(full.body.contains("},{\"id\":2,\"name\":\"B\""));
    assert!(full.body.ends_with("\"}]"));
}

#[test]
fn every_error_variant_keeps_its_origin_prefix() {
    let cases = vec![
        (AppError::SqlxError(String::from("db down")), "Sqlx error: db down"),
        (AppError::DotenvyError(String::from("no file")), "Dotenvy error: no file"),
        (AppError::EnvError(String::from("unset")), "Env error: unset"),
        (AppError::ServerError(String::from("bind")), "Server error: bind"),
    ];
    for (err, msg) in cases {
        assert_eq!(err.message(), msg);
        let resp = err.into_response();
        assert_eq!(resp.status, 500);
        assert_eq!(resp.body, format!("{{\"error\":\"{}\"}}", msg));
    }
}

#[test]
fn statements_bind_their_parameters_in_order() {
    let s = insert_player_statement("Alice", "tok");
    assert_eq!(s.sql, "INSERT INTO players (name, token) VALUES (?, ?)");
    assert_eq!(s.params, vec!["Alice", "tok"]);

    let s = select_player_by_token_statement("tok");
    assert_eq!(s.sql, "SELECT id, name, token FROM players WHERE token = ?");
    assert_eq!(s.params, vec!["tok"]);

    let s = player_exists_statement("tok");
    assert_eq!(s.sql, "SELECT EXISTS(SELECT 1 FROM players WHERE token = ?)");
    assert_eq!(s.params, vec!["tok"]);

    let s = list_players_statement();
    assert_eq!(s.sql, "SELECT id, name, token FROM players");
    assert!(s.params.is_empty());

    let s = update_player_name_statement("Chuck", "tok");
    assert_eq!(s.sql, "UPDATE players SET name = ? WHERE token = ?");
    assert_eq!(s.params, vec!["Chuck", "tok"]);

    let s = delete_player_statement("tok");
    assert_eq!(s.sql, "DELETE FROM players WHERE token = ?");
    assert_eq!(s.params, vec!["tok"]);
}
