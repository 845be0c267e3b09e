use arpav::extract::{extract, latest_value};
use arpav::model::{Contenitore, Dati, Sensore, Stazione};
use arpav::readings::Readings;

fn reading(istante: u64, value: f64) -> Dati {
    Dati { istante, vm: value.to_bits() }
}

fn sensor(id: u64, type_code: &str, values: &[f64]) -> Sensore {
    let mut dati = Vec::new();
    let mut istante = 1_600_000_000u64;
    for value in values {
        dati.push(reading(istante, *value));
        istante += 300;
    }
    Sensore {
        id,
        paramnm: String::from("Temperatura aria a 2m"),
        type_code: String::from(type_code),
        unitnm: String::from("gradi C"),
        unitcode: 1,
        note: String::new(),
        freq: 30,
        dati,
    }
}

fn bulletin(sensors: Vec<Sensore>) -> Contenitore {
    Contenitore {
        fornitore: String::from("ARPAV"),
        istanterun: 202001010900,
        note: String::new(),
        licenza: String::from("CC BY"),
        periodo: String::from("24 ore"),
        inizio: 202001010000,
        fine: 202001010900,
        projection: String::from("EPSG:3003"),
        stazione: Stazione {
            idstaz: 182,
            nome: String::from("Cavallino"),
            x: 1_771_545.0f64.to_bits(),
            y: 5_040_968.0f64.to_bits(),
            quota: 1,
            tipostaz: String::from("MET"),
            provincia: String::from("VE"),
            comune: String::from("Cavallino-Treporti"),
            attivazione: String::from("1992-01-01"),
            sensore: sensors,
        },
    }
}

fn value_of(readings: &Readings, key: &str) -> Option<f64> {
    readings.get(&String::from(key)).map(f64::from_bits)
}

#[test]
fn no_sensors_give_an_empty_mapping() {
    let readings = extract(&bulletin(Vec::new()));
    assert_eq!(readings.len(), 0);
    assert!(readings.entries().is_empty());
    assert_eq!(value_of(&readings, "TEMP"), None);
}

#[test]
fn sensor_without_observations_is_omitted() {
    let readings = extract(&bulletin(vec![
        sensor(1, "TEMP", &[12.3, 12.9]),
        sensor(2, "UMID", &[]),
        sensor(3, "PREC", &[0.2]),
    ]));
    assert_eq!(readings.len(), 2);
    assert_eq!(value_of(&readings, "TEMP"), Some(12.9));
    assert_eq!(value_of(&readings, "UMID"), None);
    assert_eq!(value_of(&readings, "PREC"), Some(0.2));
}

#[test]
fn only_silent_sensors_give_an_empty_mapping() {
    let readings = extract(&bulletin(vec![sensor(1, "TEMP", &[]), sensor(2, "UMID", &[])]));
    assert_eq!(readings.len(), 0);
}

#[test]
fn last_observation_is_the_one_published() {
    let readings = extract(&bulletin(vec![sensor(1, "TEMP", &[1.0, 2.0, 3.0, -4.5])]));
    assert_eq!(readings.len(), 1);
    assert_eq!(value_of(&readings, "TEMP"), Some(-4.5));
}

#[test]
fn later_sensor_overwrites_earlier_with_same_type() {
    let readings = extract(&bulletin(vec![
        sensor(1, "TEMP", &[12.3, 12.9]),
        sensor(2, "TEMP", &[20.0, 21.5]),
    ]));
    assert_eq!(readings.len(), 1);
    assert_eq!(value_of(&readings, "TEMP"), Some(21.5));
    assert_eq!(readings.entries().len(), 1);
    assert_eq!(readings.entries()[0].key, "TEMP");
    assert_eq!(readings.entries()[0].value, 21.5f64.to_bits());
}

#[test]
fn later_silent_sensor_does_not_erase_earlier_value() {
    let readings = extract(&bulletin(vec![
        sensor(1, "TEMP", &[12.3, 12.9]),
        sensor(2, "TEMP", &[]),
    ]));
    assert_eq!(readings.len(), 1);
    assert_eq!(value_of(&readings, "TEMP"), Some(12.9));
}

#[test]
fn silent_sensor_changes_nothing_wherever_it_stands() {
    let with = extract(&bulletin(vec![
        sensor(1, "VENT", &[]),
        sensor(2, "TEMP", &[7.0]),
        sensor(3, "UMID", &[81.0]),
    ]));
    let without = extract(&bulletin(vec![sensor(2, "TEMP", &[7.0]), sensor(3, "UMID", &[81.0])]));
    assert_eq!(with.len(), without.len());
    for entry in without.entries() {
        assert_eq!(with.get(&entry.key), Some(entry.value));
    }
}

#[test]
fn type_codes_are_compared_exactly() {
    let readings = extract(&bulletin(vec![
        sensor(1, "TEMP", &[1.5]),
        sensor(2, "temp", &[2.5]),
        sensor(3, "TEMP ", &[3.5]),
    ]));
    assert_eq!(readings.len(), 3);
    assert_eq!(value_of(&readings, "TEMP"), Some(1.5));
    assert_eq!(value_of(&readings, "temp"), Some(2.5));
    assert_eq!(value_of(&readings, "TEMP "), Some(3.5));
}

#[test]
fn station_metadata_is_not_published() {
    let readings = extract(&bulletin(vec![sensor(1, "TEMP", &[1.5])]));
    assert_eq!(value_of(&readings, "Cavallino"), None);
    assert_eq!(value_of(&readings, "ARPAV"), None);
    assert_eq!(readings.len(), 1);
}

#[test]
fn extraction_is_repeatable() {
    let contenitore = bulletin(vec![sensor(1, "TEMP", &[12.3, 12.9]), sensor(2, "UMID", &[64.0])]);
    let first = extract(&contenitore);
    let second = extract(&contenitore.clone());
    assert_eq!(first.entries(), second.entries());
}

#[test]
fn latest_value_of_a_sensor() {
    assert_eq!(latest_value(&sensor(1, "TEMP", &[12.3, 12.9])), Some(12.9f64.to_bits()));
    assert_eq!(latest_value(&sensor(1, "TEMP", &[5.0])), Some(5.0f64.to_bits()));
    assert_eq!(latest_value(&sensor(1, "TEMP", &[])), None);
}

#[test]
fn readings_set_inserts_and_replaces() {
    let mut readings = Readings::new();
    assert_eq!(readings.len(), 0);
    readings.set(String::from("A"), 1);
    readings.set(String::from("B"), 2);
    assert_eq!(readings.len(), 2);
    readings.set(String::from("A"), 3);
    assert_eq!(readings.len(), 2);
    assert_eq!(readings.get(&String::from("A")), Some(3));
    assert_eq!(readings.get(&String::from("B")), Some(2));
    assert_eq!(readings.get(&String::from("C")), None);
    assert_eq!(readings.entries()[0].key, "A");
    assert_eq!(readings.entries()[1].key, "B");
}

#[test]
fn readings_keep_every_bit_of_a_value() {
    let mut readings = Readings::new();
    readings.set(String::from("NAN"), f64::NAN.to_bits());
    readings.set(String::from("ZERO"), (-0.0f64).to_bits());
    assert_eq!(readings.get(&String::from("NAN")), Some(f64::NAN.to_bits()));
    assert_eq!(readings.get(&String::from("ZERO")), Some(0x8000_0000_0000_0000));
}
