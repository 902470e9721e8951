use entice::errors::Error;
use entice::settings::{parse_u64, Settings};

fn full_entries() -> Vec<(String, String)> {
    vec![
        ("telegram_bot.auth_token".to_owned(), "token123".to_owned()),
        ("telegram_bot.update_interval".to_owned(), "500".to_owned()),
        ("telegram_client.api_id".to_owned(), "id1".to_owned()),
        ("telegram_client.api_hash".to_owned(), "hash1".to_owned()),
        ("telegram_client.server".to_owned(), "srv".to_owned()),
        ("telegram_client.phone".to_owned(), "555".to_owned()),
        ("database.url".to_owned(), "postgres://localhost/entice".to_owned()),
    ]
}

#[test]
fn try_fetch_reads_every_field() {
    let settings = Settings::try_fetch(&full_entries()).unwrap();
    assert_eq!(settings.telegram_bot.auth_token, "token123");
    assert_eq!(settings.telegram_bot.update_interval, 500);
    assert_eq!(settings.telegram_client.api_id, "id1");
    assert_eq!(settings.telegram_client.api_hash, "hash1");
    assert_eq!(settings.telegram_client.server, "srv");
    assert_eq!(settings.telegram_client.phone, "555");
    assert_eq!(settings.database.url, "postgres://localhost/entice");
}

#[test]
fn try_fetch_defaults_the_update_interval() {
    let entries: Vec<(String, String)> = full_entries()
        .into_iter()
        .filter(|(k, _)| k != "telegram_bot.update_interval")
        .collect();
    let settings = Settings::try_fetch(&entries).unwrap();
    assert_eq!(settings.telegram_bot.update_interval, 200);
}

#[test]
fn try_fetch_requires_every_key() {
    for missing in [
        "telegram_bot.auth_token",
        "telegram_client.api_id",
        "telegram_client.api_hash",
        "telegram_client.server",
        "telegram_client.phone",
        "database.url",
    ] {
        let entries: Vec<(String, String)> =
            full_entries().into_iter().filter(|(k, _)| k != missing).collect();
        match Settings::try_fetch(&entries) {
            Err(Error::Config) => {}
            _ => panic!("a configuration without {} must be refused", missing),
        }
    }
}

#[test]
fn try_fetch_refuses_a_malformed_interval() {
    let entries: Vec<(String, String)> = full_entries()
        .into_iter()
        .map(|(k, v)| {
            if k == "telegram_bot.update_interval" {
                (k, "soon".to_owned())
            } else {
                (k, v)
            }
        })
        .collect();
    match Settings::try_fetch(&entries) {
        Err(Error::Config) => {}
        _ => panic!("a non-numeric interval must be refused"),
    }
}

#[test]
fn try_fetch_takes_the_first_entry_per_key() {
    let mut entries = full_entries();
    entries.push(("telegram_bot.auth_token".to_owned(), "shadowed".to_owned()));
    let settings = Settings::try_fetch(&entries).unwrap();
    assert_eq!(settings.telegram_bot.auth_token, "token123");
}

#[test]
fn parse_u64_reads_decimal_numbers() {
    assert_eq!(parse_u64(&"0".to_owned()), Some(0));
    assert_eq!(parse_u64(&"200".to_owned()), Some(200));
    assert_eq!(parse_u64(&"007".to_owned()), Some(7));
    assert_eq!(
        parse_u64(&"18446744073709551615".to_owned()),
        Some(u64::MAX)
    );
}

#[test]
fn parse_u64_refuses_what_is_no_number() {
    assert_eq!(parse_u64(&"".to_owned()), None);
    assert_eq!(parse_u64(&"12a".to_owned()), None);
    assert_eq!(parse_u64(&"-5".to_owned()), None);
    assert_eq!(parse_u64(&" 5".to_owned()), None);
    assert_eq!(parse_u64(&"18446744073709551616".to_owned()), None);
}
