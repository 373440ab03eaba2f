use url_shortener::alias::{rand_string, random_alias, ALIAS_LEN};
use url_shortener::errors::{ServiceError, StoreError, UserError};
use url_shortener::service::{
    check_url, prepare_shorten, resolve, shorten, shorten_checked, shorten_outcome,
};
use url_shortener::store::{create_table, MappingStore};

fn fresh_store() -> MappingStore {
    let mut store = MappingStore::new();
    create_table(&mut store);
    store
}

fn is_alias_char(c: char) -> bool {
    c.is_ascii_uppercase() || c.is_ascii_lowercase() || c.is_ascii_digit()
}

#[test]
fn shortened_url_resolves_to_itself() {
    let mut store = fresh_store();
    let url = "https://example.com/path";
    let alias = shorten(&mut store, url).expect("a valid url is shortened");
    assert_eq!(alias.chars().count(), ALIAS_LEN);
    assert!(alias.chars().all(is_alias_char));
    assert_eq!(resolve(&store, &alias), Ok(url.to_string()));
}

#[test]
fn several_urls_resolve_to_themselves() {
    let mut store = fresh_store();
    let urls = ["https://a.example/x", "http://localhost:80", "https://www.gnu.org/"];
    let mut aliases = Vec::new();
    for url in urls {
        aliases.push(shorten(&mut store, url).unwrap());
    }
    for (alias, url) in aliases.iter().zip(urls) {
        assert_eq!(resolve(&store, alias), Ok(url.to_string()));
    }
}

#[test]
fn invalid_url_is_refused() {
    let mut store = fresh_store();
    assert_eq!(
        shorten(&mut store, "not a url"),
        Err(ServiceError::User(UserError::InvalidUrl))
    );
}

#[test]
fn valid_url_gives_nonempty_alias() {
    let mut store = fresh_store();
    let alias = shorten(&mut store, "https://example.com/path").unwrap();
    assert!(!alias.is_empty());
}

#[test]
fn shorten_without_table_fails() {
    let mut store = MappingStore::new();
    assert_eq!(
        shorten(&mut store, "https://example.com/"),
        Err(ServiceError::Database(StoreError::Rejected))
    );
}

#[test]
fn unreturned_alias_is_not_found() {
    let mut store = fresh_store();
    let alias = shorten(&mut store, "https://example.com/").unwrap();
    let other = if alias == "zzzzzz" { "yyyyyy" } else { "zzzzzz" };
    assert_eq!(resolve(&store, other), Err(ServiceError::User(UserError::NotFound)));
    assert_eq!(resolve(&store, "short"), Err(ServiceError::User(UserError::NotFound)));
}

#[test]
fn forced_alias_collision_gives_one_success() {
    let mut store = fresh_store();
    let first = shorten_checked(&mut store, "https://one.example/", true, "Qw3rty".to_string());
    let second = shorten_checked(&mut store, "https://two.example/", true, "Qw3rty".to_string());
    assert_eq!(first, Ok("Qw3rty".to_string()));
    assert_eq!(second, Err(ServiceError::Database(StoreError::Rejected)));
    assert_eq!(resolve(&store, "Qw3rty"), Ok("https://one.example/".to_string()));
}

#[test]
fn shorten_checked_refuses_invalid_verdict() {
    let mut store = fresh_store();
    assert_eq!(
        shorten_checked(&mut store, "https://one.example/", false, "abcdef".to_string()),
        Err(ServiceError::User(UserError::InvalidUrl))
    );
    assert_eq!(resolve(&store, "abcdef"), Err(ServiceError::User(UserError::NotFound)));
}

#[test]
fn check_url_follows_the_validator() {
    assert_eq!(check_url("https://google.com"), Ok(()));
    assert_eq!(check_url("ftp://localhost:80"), Ok(()));
    assert_eq!(check_url("http"), Err(ServiceError::User(UserError::InvalidUrl)));
    assert_eq!(check_url("not a url"), Err(ServiceError::User(UserError::InvalidUrl)));
    assert_eq!(check_url(""), Err(ServiceError::User(UserError::InvalidUrl)));
}

#[test]
fn aliases_have_configured_length_and_alphabet() {
    for _ in 0..50 {
        let a = rand_string();
        assert_eq!(a.chars().count(), 6);
        assert!(a.chars().all(is_alias_char));
    }
    let long = random_alias(15);
    assert_eq!(long.chars().count(), 15);
    assert!(long.chars().all(is_alias_char));
    assert_eq!(random_alias(0), "");
}

#[test]
fn prepare_shorten_draws_alias_for_valid_url() {
    let alias = prepare_shorten("https://example.com/path").unwrap();
    assert_eq!(alias.chars().count(), ALIAS_LEN);
    assert!(alias.chars().all(is_alias_char));
    assert_eq!(
        prepare_shorten("not a url"),
        Err(ServiceError::User(UserError::InvalidUrl))
    );
}

#[test]
fn shorten_outcome_follows_the_insert() {
    assert_eq!(shorten_outcome("9F9nd5".to_string(), Ok(())), Ok("9F9nd5".to_string()));
    assert_eq!(
        shorten_outcome("9F9nd5".to_string(), Err(ServiceError::Database(StoreError::Rejected))),
        Err(ServiceError::Database(StoreError::Rejected))
    );
    assert_eq!(
        shorten_outcome("9F9nd5".to_string(), Err(ServiceError::Database(StoreError::Unavailable))),
        Err(ServiceError::Database(StoreError::Unavailable))
    );
}
