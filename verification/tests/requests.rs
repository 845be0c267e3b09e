use arpav::dispatch::{accept, accept_at, decoded, describe_undecoded, fetched, is_read_method, Action, Reply};
use arpav::model::{Contenitore, Dati, Sensore, Stazione};
use arpav::resolver::{bulletin_url, Fetched, Stage};

const DOCUMENT: &str = "<CONTENITORE><STAZIONE><SENSORE><TYPE>TEMP</TYPE></SENSORE></STAZIONE></CONTENITORE>";

fn temperature_bulletin() -> Contenitore {
    Contenitore {
        fornitore: String::from("ARPAV"),
        istanterun: 202001010900,
        note: String::new(),
        licenza: String::new(),
        periodo: String::new(),
        inizio: 202001010000,
        fine: 202001010900,
        projection: String::new(),
        stazione: Stazione {
            idstaz: 182,
            nome: String::from("Cavallino"),
            x: 0,
            y: 0,
            quota: 1,
            tipostaz: String::new(),
            provincia: String::from("VE"),
            comune: String::new(),
            attivazione: String::new(),
            sensore: vec![Sensore {
                id: 300000316,
                paramnm: String::from("Temperatura aria a 2m"),
                type_code: String::from("TEMP"),
                unitnm: String::from("gradi C"),
                unitcode: 1,
                note: String::new(),
                freq: 30,
                dati: vec![
                    Dati { istante: 202001010830, vm: 12.3f64.to_bits() },
                    Dati { istante: 202001010900, vm: 12.9f64.to_bits() },
                ],
            }],
        },
    }
}

/// Stands for the decoder: knows one document.
fn decode(body: &[u8]) -> Result<Contenitore, String> {
    if body == DOCUMENT.as_bytes() {
        Ok(temperature_bulletin())
    } else {
        Err(String::from("unexpected end of stream"))
    }
}

/// What a caller sends for a reply: the status and the body.
fn wire(reply: &Reply) -> (u16, String) {
    let body = match reply {
        Reply::Readings(readings) => {
            let mut object = serde_json::Map::new();
            for entry in readings.entries() {
                object.insert(entry.key.clone(), serde_json::Value::from(f64::from_bits(entry.value)));
            }
            serde_json::Value::Object(object).to_string()
        }
        Reply::Failure(message) => message.clone(),
        Reply::NotFound => String::new(),
    };
    (reply.status(), body)
}

/// Serves one request against an upstream that publishes `document` at the
/// hours listed and nothing at the others. Returns the reply as sent and the
/// URLs that were asked for.
fn serve(method: &str, hour: i8, published: &[u8], document: &str) -> ((u16, String), Vec<String>) {
    let mut asked = Vec::new();
    let mut action = accept_at(method, hour);
    loop {
        action = match action {
            Action::Fetch { hour, url } => {
                asked.push(url);
                let answer = if published.contains(&hour) {
                    Fetched::Answer { status: 200, body: document.as_bytes().to_vec() }
                } else {
                    Fetched::Answer { status: 404, body: b"Not Found".to_vec() }
                };
                fetched(hour, answer)
            }
            Action::Decode { body } => Action::Respond(decoded(decode(&body))),
            Action::Respond(reply) => return (wire(&reply), asked),
        };
    }
}

#[test]
fn read_request_yields_the_latest_temperature() {
    let (sent, asked) = serve("GET", 9, &[9], DOCUMENT);
    assert_eq!(sent, (200, String::from("{\"TEMP\":12.9}")));
    assert_eq!(asked, vec![String::from("http://www.arpa.veneto.it/bollettini/meteo/h24/img09/0182.xml")]);
}

#[test]
fn read_request_falls_back_to_an_earlier_hour() {
    let (sent, asked) = serve("GET", 11, &[9, 3], DOCUMENT);
    assert_eq!(sent, (200, String::from("{\"TEMP\":12.9}")));
    assert_eq!(asked, vec![bulletin_url(11), bulletin_url(10), bulletin_url(9)]);
}

#[test]
fn nothing_published_yields_500_with_the_phrase() {
    for hour in [0i8, 9, 23] {
        let (sent, asked) = serve("GET", hour, &[], DOCUMENT);
        assert_eq!(sent.0, 500);
        assert!(sent.1.contains("no measurements found"));
        assert_eq!(sent.1, "no measurements found for today");
        assert_eq!(asked.len(), hour as usize + 1);
    }
}

#[test]
fn other_methods_yield_404_with_an_empty_body() {
    for method in ["POST", "PUT", "DELETE", "HEAD", "OPTIONS", "PATCH", "TRACE", "CONNECT", "get", "GETS", "GE", "", " GET"] {
        for hour in [0i8, 9, 23] {
            let (sent, asked) = serve(method, hour, &[9], DOCUMENT);
            assert_eq!(sent, (404, String::new()));
            assert!(asked.is_empty());
        }
    }
}

#[test]
fn undecodable_bulletin_yields_500_with_the_decoder_message() {
    let (sent, asked) = serve("GET", 9, &[9], "<CONTENITORE>");
    assert_eq!(sent, (500, String::from("error parsing XML: unexpected end of stream")));
    assert_eq!(asked.len(), 1);
}

#[test]
fn transport_failure_yields_500_with_its_message() {
    let action = fetched(9, Fetched::Broken { stage: Stage::Response, detail: String::from("dns error") });
    match action {
        Action::Respond(reply) => {
            assert_eq!(wire(&reply), (500, String::from("error getting response: dns error")))
        }
        other => panic!("unexpected action {:?}", other),
    }
}

#[test]
fn only_get_is_a_read_method() {
    assert!(is_read_method("GET"));
    for method in ["get", "Get", "HEAD", "POST", "", "G", "GE", "GETT", "GÉT", "TEG"] {
        assert!(!is_read_method(method));
    }
}

#[test]
fn accept_at_starts_the_search_at_the_given_hour() {
    match accept_at("GET", 9) {
        Action::Fetch { hour, url } => {
            assert_eq!(hour, 9);
            assert_eq!(url, bulletin_url(9));
        }
        other => panic!("unexpected action {:?}", other),
    }
    match accept_at("GET", -1) {
        Action::Respond(reply) => assert_eq!(wire(&reply), (500, String::from("no measurements found for today"))),
        other => panic!("unexpected action {:?}", other),
    }
}

#[test]
fn accept_starts_the_search_at_an_hour_of_the_day() {
    match accept("GET") {
        Action::Fetch { hour, url } => {
            assert!(hour < 24);
            assert_eq!(url, bulletin_url(hour));
        }
        other => panic!("unexpected action {:?}", other),
    }
    match accept("POST") {
        Action::Respond(Reply::NotFound) => {}
        other => panic!("unexpected action {:?}", other),
    }
}

#[test]
fn found_bulletin_is_handed_on_unchanged() {
    let body = vec![0u8, 159, 146, 150, 255];
    match fetched(4, Fetched::Answer { status: 200, body: body.clone() }) {
        Action::Decode { body: handed } => assert_eq!(handed, body),
        other => panic!("unexpected action {:?}", other),
    }
}

#[test]
fn statuses_of_the_replies() {
    assert_eq!(decoded(Ok(temperature_bulletin())).status(), 200);
    assert_eq!(decoded(Err(String::from("x"))).status(), 500);
    assert_eq!(Reply::NotFound.status(), 404);
    assert_eq!(Reply::Failure(String::new()).status(), 500);
}

#[test]
fn decoded_bulletin_without_sensors_yields_an_empty_object() {
    let mut contenitore = temperature_bulletin();
    contenitore.stazione.sensore.clear();
    assert_eq!(wire(&decoded(Ok(contenitore))), (200, String::from("{}")));
}

#[test]
fn decode_failures_are_prefixed() {
    assert_eq!(describe_undecoded("missing field `STAZIONE`"), "error parsing XML: missing field `STAZIONE`");
    assert_eq!(describe_undecoded(""), "error parsing XML: ");
}
