use duckymerone::db::{
    PlayerStore, create_player, create_player_with_token, delete_player_by_token,
    exists_from_scalar, get_player_by_token, list_players, player_exists, update_player_name,
};
use duckymerone::app_error::AppError;

#[test]
fn tokens_are_canonical_hyphenated_uuids() {
    let mut pool = PlayerStore::new();
    let player = create_player(&mut pool, "Eve").unwrap();
    let chars: Vec<char> = player.token.chars().collect();
    assert_eq!(chars.len(), 36);
    for (i, c) in chars.iter().enumerate() {
        if i == 8 || i == 13 || i == 18 || i == 23 {
            assert_eq!(*c, '-');
        } else {
            assert!(c.is_ascii_hexdigit() && !c.is_ascii_uppercase());
        }
    }
    assert_eq!(chars[14], '4');
    assert!(matches!(chars[19], '8' | '9' | 'a' | 'b'));
}

#[test]
fn storage_errors_carry_the_engine_messages() {
    let mut pool = PlayerStore::new();
    match get_player_by_token(&pool, "missing") {
        Err(AppError::SqlxError(m)) => {
            assert_eq!(m, "no rows returned by a query that expected to return at least one row")
        }
        _ => panic!("expected the no-row storage error"),
    }
    create_player_with_token(&mut pool, "Alice", "tok-1").unwrap();
    match create_player_with_token(&mut pool, "Bob", "tok-1") {
        Err(AppError::SqlxError(m)) => {
            assert_eq!(m, "UNIQUE constraint failed: players.token")
        }
        _ => panic!("expected the unique-constraint storage error"),
    }
}

#[test]
fn exists_scalar_interprets_the_probe() {
    assert!(exists_from_scalar(1));
    assert!(!exists_from_scalar(0));
    assert!(!exists_from_scalar(2));
}

#[test]
fn test_create_and_get_player() {
    let mut pool = PlayerStore::new();
    let name = "Alice";
    let player = create_player(&mut pool, name).unwrap();
    assert_eq!(player.name, name);

    let fetched = get_player_by_token(&pool, &player.token).unwrap();
    assert_eq!(fetched.id, player.id);
}

#[test]
fn test_player_exists() {
    let mut pool = PlayerStore::new();
    let player = create_player(&mut pool, "Bob").unwrap();
    assert!(player_exists(&pool, &player.token).unwrap());
    assert!(!player_exists(&pool, "nonexistent").unwrap());
}

#[test]
fn test_update_player_name() {
    let mut pool = PlayerStore::new();
    let player = create_player(&mut pool, "Charlie").unwrap();
    update_player_name(&mut pool, &player.token, "Chuck").unwrap();
    let updated = get_player_by_token(&pool, &player.token).unwrap();
    assert_eq!(updated.name, "Chuck");
}

#[test]
fn test_delete_player() {
    let mut pool = PlayerStore::new();
    let player = create_player(&mut pool, "Dave").unwrap();
    delete_player_by_token(&mut pool, &player.token).unwrap();
    let result = get_player_by_token(&pool, &player.token);
    assert!(result.is_err());
}

#[test]
fn create_assigns_fresh_token_and_id() {
    let mut pool = PlayerStore::new();
    let a = create_player(&mut pool, "Alice").unwrap();
    let b = create_player(&mut pool, "Bob").unwrap();
    assert_eq!(a.token.len(), 36);
    assert_eq!(b.token.len(), 36);
    assert!(!a.token.is_empty());
    assert_ne!(a.token, b.token);
    assert_eq!(a.id, Some(1));
    assert_eq!(b.id, Some(2));
}

#[test]
fn create_with_taken_token_is_storage_error() {
    let mut pool = PlayerStore::new();
    create_player_with_token(&mut pool, "Alice", "tok-1").unwrap();
    let second = create_player_with_token(&mut pool, "Bob", "tok-1");
    assert!(matches!(second, Err(AppError::SqlxError(_))));
    // the failed insert left the table unchanged
    assert_eq!(list_players(&pool).unwrap().len(), 1);
}

#[test]
fn get_unknown_token_is_storage_error() {
    let pool = PlayerStore::new();
    match get_player_by_token(&pool, "missing") {
        Err(AppError::SqlxError(_)) => (),
        _ => panic!("expected a storage error"),
    }
}

#[test]
fn list_returns_every_created_player() {
    let mut pool = PlayerStore::new();
    let mut issued = vec![
        create_player(&mut pool, "Alice").unwrap().token,
        create_player(&mut pool, "Bob").unwrap().token,
        create_player(&mut pool, "Carol").unwrap().token,
    ];
    let mut listed: Vec<String> = list_players(&pool)
        .unwrap()
        .into_iter()
        .map(|p| p.token)
        .collect();
    issued.sort();
    listed.sort();
    assert_eq!(listed.len(), 3);
    assert_eq!(listed, issued);
}

#[test]
fn update_unknown_token_is_silent_noop() {
    let mut pool = PlayerStore::new();
    let player = create_player(&mut pool, "Alice").unwrap();
    update_player_name(&mut pool, "unknown", "Zed").unwrap();
    let kept = get_player_by_token(&pool, &player.token).unwrap();
    assert_eq!(kept.name, "Alice");
    assert_eq!(list_players(&pool).unwrap().len(), 1);
}

#[test]
fn delete_twice_is_silent_noop() {
    let mut pool = PlayerStore::new();
    let player = create_player(&mut pool, "Dave").unwrap();
    delete_player_by_token(&mut pool, &player.token).unwrap();
    delete_player_by_token(&mut pool, &player.token).unwrap();
    assert_eq!(list_players(&pool).unwrap().len(), 0);
}
