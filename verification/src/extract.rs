//! Reduction of a bulletin to the latest value of every sensor type.

use crate::model::{sensor_views, Contenitore, Sensore, SensoreView};
use crate::readings::Readings;
use vstd::prelude::*;

verus! {

/// The most recent value of a sensor: that of its last observation, if it has any.
pub open spec fn latest(sensor: SensoreView) -> Option<u64> {
    if sensor.dati.len() > 0 {
        Some(sensor.dati.last().vm)
    } else {
        None
    }
}

/// The mapping published for a list of sensors. Sensors are taken in order, so
/// a later sensor replaces the value of an earlier one with the same type code.
/// A sensor without observations contributes nothing.
pub open spec fn extracted(sensors: Seq<SensoreView>) -> Map<Seq<char>, u64>
    decreases sensors.len(),
{
    if sensors.len() == 0 {
        Map::empty()
    } else {
        let before = extracted(sensors.drop_last());
        match latest(sensors.last()) {
            Some(value) => before.insert(sensors.last().type_code, value),
            None => before,
        }
    }
}

/// A sensor at position `i` reports under `key`: it has that type code and at
/// least one observation.
pub open spec fn reports(sensors: Seq<SensoreView>, i: int, key: Seq<char>) -> bool {
    0 <= i < sensors.len() && sensors[i].type_code == key && sensors[i].dati.len() > 0
}

/// The most recent value of a sensor.
pub fn latest_value(sensor: &Sensore) -> (value: Option<u64>)
    ensures
        value == latest(sensor@),
{
    let n = sensor.dati.len();
    if n > 0 {
        Some(sensor.dati[n - 1].vm)
    } else {
        None
    }
}

/// The latest value of every sensor type of the bulletin's station.
pub fn extract(contenitore: &Contenitore) -> (readings: Readings)
    ensures
        readings@ == extracted(contenitore@.stazione.sensore),
{
    let sensors = &contenitore.stazione.sensore;
    let ghost views = sensor_views(sensors@);
    let mut readings = Readings::new();
    let mut i: usize = 0;
    while i < sensors.len()
        invariant
            i <= sensors.len(),
            views == sensor_views(sensors@),
            readings@ == extracted(views.take(i as int)),
        decreases sensors.len() - i,
    {
        let sensor = &sensors[i];
        proof {
            assert(views.take(i + 1).drop_last() == views.take(i as int));
            assert(views.take(i + 1).last() == sensor@);
        }
        match latest_value(sensor) {
            Some(value) => {
                readings.set(sensor.type_code.clone(), value);
            },
            None => {},
        }
        i += 1;
    }
    proof {
        assert(views.take(i as int) == views);
    }
    readings
}

/// A station without sensors publishes nothing.
pub proof fn law_no_sensors_no_readings()
    ensures
        extracted(Seq::<SensoreView>::empty()) == Map::<Seq<char>, u64>::empty(),
{
}

/// A key is published exactly when some sensor with that type code has at
/// least one observation. In particular a sensor whose observations are empty
/// does not bring its type code into the mapping.
pub proof fn law_published_keys(sensors: Seq<SensoreView>, key: Seq<char>)
    ensures
        extracted(sensors).dom().contains(key) <==> exists|i: int| reports(sensors, i, key),
    decreases sensors.len(),
{
    if sensors.len() > 0 {
        let front = sensors.drop_last();
        let last = sensors.len() - 1;
        law_published_keys(front, key);
        if extracted(sensors).dom().contains(key) {
            if reports(sensors, last, key) {
            } else {
                let i = choose|i: int| reports(front, i, key);
                assert(reports(sensors, i, key));
            }
        }
        if exists|i: int| reports(sensors, i, key) {
            let i = choose|i: int| reports(sensors, i, key);
            if i < last {
                assert(reports(front, i, key));
            }
        }
    }
}

/// Taking a sensor without observations out of the list changes nothing.
pub proof fn law_silent_sensor_omitted(sensors: Seq<SensoreView>, i: int)
    requires
        0 <= i < sensors.len(),
        sensors[i].dati.len() == 0,
    ensures
        extracted(sensors.remove(i)) == extracted(sensors),
    decreases sensors.len(),
{
    let last = sensors.len() - 1;
    if i == last {
        assert(sensors.remove(i) == sensors.drop_last());
    } else {
        let front = sensors.drop_last();
        law_silent_sensor_omitted(front, i);
        assert(sensors.remove(i).drop_last() == front.remove(i));
        assert(sensors.remove(i).last() == sensors.last());
    }
}

/// The value published under a key is the latest value of the last sensor that
/// reports under it: where two sensors share a type code, the later one wins.
pub proof fn law_later_sensor_wins(sensors: Seq<SensoreView>, i: int, key: Seq<char>)
    requires
        reports(sensors, i, key),
        forall|j: int| i < j < sensors.len() ==> !reports(sensors, j, key),
    ensures
        extracted(sensors).dom().contains(key),
        extracted(sensors)[key] == sensors[i].dati.last().vm,
    decreases sensors.len(),
{
    let last = sensors.len() - 1;
    if i < last {
        let front = sensors.drop_last();
        assert(reports(front, i, key));
        assert forall|j: int| i < j < front.len() implies !reports(front, j, key) by {
            assert(!reports(sensors, j, key));
        }
        law_later_sensor_wins(front, i, key);
        assert(!reports(sensors, last, key));
    }
}

/// The published mapping depends on nothing but the type codes and the last
/// observations of the sensors.
pub proof fn law_extraction_reads_type_and_last(a: Seq<SensoreView>, b: Seq<SensoreView>)
    requires
        a.len() == b.len(),
        forall|i: int|
            0 <= i < a.len() ==> (#[trigger] a[i]).type_code == b[i].type_code && latest(a[i])
                == latest(b[i]),
    ensures
        extracted(a) == extracted(b),
    decreases a.len(),
{
    if a.len() > 0 {
        let last = a.len() - 1;
        assert(a[last].type_code == b[last].type_code && latest(a[last]) == latest(b[last]));
        assert forall|i: int| 0 <= i < a.drop_last().len() implies (#[trigger] a.drop_last()[i]).type_code
            == b.drop_last()[i].type_code && latest(a.drop_last()[i]) == latest(
            b.drop_last()[i],
        ) by {
            assert(a[i].type_code == b[i].type_code && latest(a[i]) == latest(b[i]));
        }
        law_extraction_reads_type_and_last(a.drop_last(), b.drop_last());
    }
}

} // verus!
