use sarne::config::LndConfig;
use sarne::encoding::node_pubkey_bytes;
use sarne::lnd::{connect_to_lnd, LndEvent, LndStep};

fn config(cert: &str) -> LndConfig {
    LndConfig {
        endpoint: "https://localhost:10009".to_string(),
        macaroon: "/lnd/admin.macaroon".to_string(),
        cert: cert.to_string(),
    }
}

#[test]
fn the_macaroon_is_read_first() {
    match connect_to_lnd(&config("a"), &LndEvent::Start) {
        LndStep::ReadMacaroon { path } => assert_eq!(path, "/lnd/admin.macaroon"),
        other => panic!("{:?}", other),
    }
}

#[test]
fn connections_carry_the_macaroon() {
    for cert in ["a", "b", ""] {
        match connect_to_lnd(&config(cert), &LndEvent::MacaroonRead(vec![0x02, 0xfe, 0x0a])) {
            LndStep::Connect { endpoint, macaroon } => {
                assert_eq!(endpoint, "https://localhost:10009");
                assert_eq!(macaroon, "02fe0a");
                assert_eq!(node_pubkey_bytes(&macaroon).unwrap(), vec![0x02, 0xfe, 0x0a]);
            }
            other => panic!("{:?}", other),
        }
    }
}

#[test]
fn without_a_macaroon_there_is_no_connection() {
    let step = connect_to_lnd(&config("a"), &LndEvent::MacaroonUnreadable);
    assert!(matches!(step, LndStep::Fail));
}
