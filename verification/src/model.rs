//! The bulletin as a graph of owned values: container, station, sensors, readings.
//!
//! Measured values and coordinates are IEEE 754 double precision numbers. They
//! are carried as their 64-bit patterns, which the library never interprets.

use vstd::prelude::*;

verus! {

/// One observation of a sensor.
#[derive(Clone, Copy, Debug, PartialEq, Eq, Structural)]
pub struct Dati {
    /// Instant of the observation.
    pub istante: u64,
    /// Bit pattern of the measured double.
    pub vm: u64,
}

/// One sensor of the station with its observations, oldest first.
#[derive(Clone, Debug, PartialEq, Eq)]
pub struct Sensore {
    pub id: u64,
    pub paramnm: String,
    /// Type code of the sensor: the key under which its latest value is published.
    pub type_code: String,
    pub unitnm: String,
    pub unitcode: u8,
    pub note: String,
    pub freq: u8,
    pub dati: Vec<Dati>,
}

/// The station a bulletin reports on.
#[derive(Clone, Debug, PartialEq, Eq)]
pub struct Stazione {
    pub idstaz: u16,
    pub nome: String,
    /// Bit pattern of the x coordinate.
    pub x: u64,
    /// Bit pattern of the y coordinate.
    pub y: u64,
    pub quota: u8,
    pub tipostaz: String,
    pub provincia: String,
    pub comune: String,
    pub attivazione: String,
    /// Sensors in the order in which the bulletin lists them.
    pub sensore: Vec<Sensore>,
}

/// The root of a bulletin. It owns exactly one station.
#[derive(Clone, Debug, PartialEq, Eq)]
pub struct Contenitore {
    pub fornitore: String,
    pub istanterun: u64,
    pub note: String,
    pub licenza: String,
    pub periodo: String,
    pub inizio: u64,
    pub fine: u64,
    pub projection: String,
    pub stazione: Stazione,
}

/// Mathematical content of a [`Sensore`].
pub struct SensoreView {
    pub id: u64,
    pub paramnm: Seq<char>,
    pub type_code: Seq<char>,
    pub unitnm: Seq<char>,
    pub unitcode: u8,
    pub note: Seq<char>,
    pub freq: u8,
    pub dati: Seq<Dati>,
}

/// Mathematical content of a [`Stazione`].
pub struct StazioneView {
    pub idstaz: u16,
    pub nome: Seq<char>,
    pub x: u64,
    pub y: u64,
    pub quota: u8,
    pub tipostaz: Seq<char>,
    pub provincia: Seq<char>,
    pub comune: Seq<char>,
    pub attivazione: Seq<char>,
    pub sensore: Seq<SensoreView>,
}

/// Mathematical content of a [`Contenitore`].
pub struct ContenitoreView {
    pub fornitore: Seq<char>,
    pub istanterun: u64,
    pub note: Seq<char>,
    pub licenza: Seq<char>,
    pub periodo: Seq<char>,
    pub inizio: u64,
    pub fine: u64,
    pub projection: Seq<char>,
    pub stazione: StazioneView,
}

impl View for Sensore {
    type V = SensoreView;

    open spec fn view(&self) -> SensoreView {
        SensoreView {
            id: self.id,
            paramnm: self.paramnm@,
            type_code: self.type_code@,
            unitnm: self.unitnm@,
            unitcode: self.unitcode,
            note: self.note@,
            freq: self.freq,
            dati: self.dati@,
        }
    }
}

/// The sensors of a station, each by its content.
pub open spec fn sensor_views(sensors: Seq<Sensore>) -> Seq<SensoreView> {
    Seq::new(sensors.len(), |i: int| sensors[i]@)
}

impl View for Stazione {
    type V = StazioneView;

    open spec fn view(&self) -> StazioneView {
        StazioneView {
            idstaz: self.idstaz,
            nome: self.nome@,
            x: self.x,
            y: self.y,
            quota: self.quota,
            tipostaz: self.tipostaz@,
            provincia: self.provincia@,
            comune: self.comune@,
            attivazione: self.attivazione@,
            sensore: sensor_views(self.sensore@),
        }
    }
}

impl View for Contenitore {
    type V = ContenitoreView;

    open spec fn view(&self) -> ContenitoreView {
        ContenitoreView {
            fornitore: self.fornitore@,
            istanterun: self.istanterun,
            note: self.note@,
            licenza: self.licenza@,
            periodo: self.periodo@,
            inizio: self.inizio,
            fine: self.fine,
            projection: self.projection@,
            stazione: self.stazione@,
        }
    }
}

} // verus!
