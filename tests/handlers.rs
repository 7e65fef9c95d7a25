use film_site::api::Api;
use film_site::config::{Config, ConfigField};
use film_site::pages::{films, index_page, page_or_error, FILMS_KEY, INDEX_TEMPLATE};
use film_site::startup::StartupError;

fn config(password: &str) -> Config {
    Config {
        username: "admin".to_string(),
        password: password.to_string(),
        port: 3306,
        host: "db.local".to_string(),
        name: "films".to_string(),
    }
}

fn api() -> Api<()> {
    match Api::new(&config("s3cret"), Ok(())) {
        Ok(a) => a,
        Err(_) => panic!("a pool that opened must give a service"),
    }
}

#[test]
fn hello_with_name() {
    assert_eq!(api().hello(Some("world".to_string())), "hello, world!");
    assert_eq!(api().hello(Some("Ana María".to_string())), "hello, Ana María!");
}

#[test]
fn hello_without_name() {
    assert_eq!(api().hello(None), "hello!");
}

#[test]
fn hello_with_empty_name() {
    assert_eq!(api().hello(Some(String::new())), "hello, !");
}

#[test]
fn index_lists_the_films() {
    let page = api().index();
    assert!(page.contains("Film list"));
    assert!(page.contains("<li>Film1</li>"));
    assert!(page.contains("<li>Film2</li>"));
    assert!(page.contains("<li>Film3</li>"));
    assert!(!page.contains("{{"));
    assert_eq!(page, index_page());
}

#[test]
fn film_list_is_fixed() {
    assert_eq!(films(), vec!["Film1".to_string(), "Film2".to_string(), "Film3".to_string()]);
}

#[test]
fn template_names_the_film_key() {
    assert!(INDEX_TEMPLATE.contains("{{#each films}}"));
    assert_eq!(FILMS_KEY, "films");
}

#[test]
fn new_keeps_the_pool() {
    let a = match Api::new(&config("s3cret"), Ok(7u32)) {
        Ok(a) => a,
        Err(_) => panic!("expected a service"),
    };
    assert_eq!(*a.db(), 7);
}

#[test]
fn new_reports_driver_failure() {
    match Api::<u32>::new(&config("s3cret"), Err("connection refused".to_string())) {
        Err(StartupError::Connection(m)) => assert_eq!(m, "connection refused"),
        _ => panic!("expected a connection error"),
    }
}

#[test]
fn new_refuses_empty_password() {
    match Api::new(&config(""), Ok(7u32)) {
        Err(StartupError::MissingField(f)) => assert_eq!(f, ConfigField::Password),
        _ => panic!("an empty password must stop startup"),
    }
    match Api::<u32>::new(&config(""), Err("connection refused".to_string())) {
        Err(StartupError::MissingField(f)) => assert_eq!(f, ConfigField::Password),
        _ => panic!("the missing setting comes first"),
    }
}

#[test]
fn index_is_the_same_for_every_service() {
    let other = match Api::new(&config("another"), Ok(42u64)) {
        Ok(a) => a,
        Err(_) => panic!("expected a service"),
    };
    assert_eq!(api().index(), other.index());
    assert_eq!(other.index(), other.index());
}

#[test]
fn page_or_error_shows_either_text() {
    assert_eq!(page_or_error(Ok("<p>page</p>".to_string())), "<p>page</p>");
    assert_eq!(page_or_error(Err("Template error".to_string())), "Template error");
}
