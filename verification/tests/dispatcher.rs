use rust_ddns::providers::{
    update_dns_record, Payload, Stage, Step, RECORD_ERR, RECORD_NOT_FOUND_ERR, UNKNOWN_BACKEND_ERR,
    UPDATE_ERR, ZONE_ERR,
};

fn dispatch(stage: Stage, response: Option<Payload>, current: &str, recorded: &mut String, backend: &str) -> Step {
    let mut current_ip = current.to_string();
    let step = update_dns_record(
        stage,
        response,
        &mut current_ip,
        recorded,
        "example.com",
        "home.",
        "secret-key",
        backend,
    );
    assert_eq!(current_ip, current);
    step
}

#[test]
fn error_reasons_have_their_texts() {
    assert_eq!(ZONE_ERR, "Error parsing zone_id");
    assert_eq!(RECORD_ERR, "Error parsing record_id");
    assert_eq!(RECORD_NOT_FOUND_ERR, "Cannot find record id, the sub domain is a new item");
    assert_eq!(UPDATE_ERR, "IP update failed");
    assert_eq!(UNKNOWN_BACKEND_ERR, "Unknown backend");
}

#[test]
fn unknown_backend_is_refused() {
    let mut recorded = "192.0.2.2".to_string();
    let step = dispatch(Stage::Start, None, "203.0.113.7", &mut recorded, "unknown");
    assert!(matches!(step, Step::Done(Err("Unknown backend"))));
    assert_eq!(recorded, "192.0.2.2");
}

#[test]
fn unknown_backend_is_refused_at_every_stage() {
    let mut recorded = "192.0.2.2".to_string();
    let stages = vec![
        Stage::Start,
        Stage::Zones,
        Stage::Records { zone_id: "zone".to_string() },
        Stage::Update,
    ];
    for stage in stages {
        let step = dispatch(stage, None, "203.0.113.7", &mut recorded, "unknown");
        assert!(matches!(step, Step::Done(Err("Unknown backend"))));
        assert_eq!(recorded, "192.0.2.2");
    }
}

#[test]
fn unknown_backend_is_refused_even_with_equal_addresses() {
    let mut recorded = "203.0.113.7".to_string();
    let step = dispatch(Stage::Start, None, "203.0.113.7", &mut recorded, "unknown");
    assert!(matches!(step, Step::Done(Err("Unknown backend"))));
}

#[test]
fn backend_names_match_exactly() {
    for backend in ["", "Cloudflare", "CLOUDFLARE", "cloudflare ", " namesilo", "NameSilo", "cloud", "namesilo2", "ddns"] {
        let mut recorded = String::new();
        let step = dispatch(Stage::Start, None, "203.0.113.7", &mut recorded, backend);
        assert!(matches!(step, Step::Done(Err("Unknown backend"))), "{:?}", backend);
        assert_eq!(recorded, "");
    }
}

#[test]
fn cloudflare_backend_goes_to_the_zone_based_provider() {
    let mut recorded = String::new();
    match dispatch(Stage::Start, None, "203.0.113.7", &mut recorded, "cloudflare") {
        Step::Fetch(request, next) => {
            assert_eq!(
                request.url,
                "https://api.cloudflare.com/client/v4/zones?name=example.com&status=active"
            );
            assert_eq!(request.headers.get("authorization").unwrap(), "Bearer secret-key");
            assert!(matches!(next, Stage::Zones));
        }
        Step::Done(outcome) => panic!("ended with {:?}", outcome),
    }
}

#[test]
fn namesilo_backend_goes_to_the_key_in_query_provider() {
    let mut recorded = String::new();
    match dispatch(Stage::Start, None, "203.0.113.7", &mut recorded, "namesilo") {
        Step::Fetch(request, next) => {
            assert_eq!(
                request.url,
                "https://www.namesilo.com/api/dnsListRecords?version=1&type=xml&key=secret-key&domain=example.com"
            );
            assert!(request.headers.is_empty());
            assert!(matches!(next, Stage::Records { .. }));
        }
        Step::Done(outcome) => panic!("ended with {:?}", outcome),
    }
}

#[test]
fn known_backends_skip_equal_addresses() {
    for backend in ["cloudflare", "namesilo"] {
        let mut recorded = "203.0.113.7".to_string();
        let step = dispatch(Stage::Start, None, "203.0.113.7", &mut recorded, backend);
        assert!(matches!(step, Step::Done(Ok(false))));
        assert_eq!(recorded, "203.0.113.7");
    }
}

#[test]
fn known_backends_report_a_refused_update() {
    for backend in ["cloudflare", "namesilo"] {
        let mut recorded = "192.0.2.2".to_string();
        let step = dispatch(Stage::Update, None, "203.0.113.7", &mut recorded, backend);
        assert!(matches!(step, Step::Done(Err("IP update failed"))));
        assert_eq!(recorded, "192.0.2.2");
    }
}

#[test]
fn retry_period_follows_the_outcome() {
    let periods = rust_ddns::providers::RetryPeriods { on_err: 5, on_success: 60, on_skip: 15 };
    assert_eq!(rust_ddns::providers::retry_period(&Ok(true), &periods), 60);
    assert_eq!(rust_ddns::providers::retry_period(&Ok(false), &periods), 15);
    assert_eq!(rust_ddns::providers::retry_period(&Err("IP update failed"), &periods), 5);
    assert_eq!(rust_ddns::providers::retry_period(&Err("Get current ip failed"), &periods), 5);
}
