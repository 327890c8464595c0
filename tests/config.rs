use rsocx::config::{select_mode, Mode};

fn s(x: &str) -> Option<String> {
    Some(x.to_string())
}

#[test]
fn standalone_wins() {
    assert_eq!(
        select_mode(s("0.0.0.0:1080"), s("127.0.0.1:9000"), s("127.0.0.1:1080"), s("h:1")),
        Mode::Standalone { bind: "0.0.0.0:1080".to_string() }
    );
}

#[test]
fn master_mode() {
    assert_eq!(
        select_mode(None, s("127.0.0.1:9000"), s("127.0.0.1:1080"), s("h:1")),
        Mode::Master {
            control: "127.0.0.1:9000".to_string(),
            client: "127.0.0.1:1080".to_string()
        }
    );
}

#[test]
fn master_without_client_address() {
    assert_eq!(
        select_mode(None, s("127.0.0.1:9000"), None, s("h:1")),
        Mode::MissingClientAddress
    );
}

#[test]
fn client_address_alone_is_no_mode() {
    assert_eq!(select_mode(None, None, s("127.0.0.1:1080"), None), Mode::Usage);
}

#[test]
fn slave_mode() {
    assert_eq!(
        select_mode(None, None, None, s("127.0.0.1:9000")),
        Mode::Slave { master: "127.0.0.1:9000".to_string() }
    );
}

#[test]
fn no_mode() {
    assert_eq!(select_mode(None, None, None, None), Mode::Usage);
}
