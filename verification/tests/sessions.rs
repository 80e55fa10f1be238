use akumuli_rs::sample::{default_sample, Sample, PAYLOAD_FLOAT};
use akumuli_rs::session::{ResolveCall, WriteCall};
use akumuli_rs::db::Startup;
use akumuli_rs::{Bootstrap, DBConfig, Error, Session, DB};
use std::time::{SystemTime, UNIX_EPOCH};

/// Stands in for the engine: hands out identifiers in the order in which
/// series are first seen and keeps what is written.
struct Engine {
    series: Vec<Vec<u8>>,
    written: Vec<Sample>,
    write_status: u32,
}

impl Engine {
    fn new() -> Engine {
        Engine { series: Vec::new(), written: Vec::new(), write_status: 0 }
    }

    fn resolve(&mut self, call: &ResolveCall<'_>) -> (u32, Sample) {
        let text = call.series().as_bytes_with_nul();
        let name = text[..call.series().len()].to_vec();
        let mut record = call.sample().encode();
        if name.is_empty() {
            return (7, Sample::decode(&record).unwrap());
        }
        let index = match self.series.iter().position(|known| *known == name) {
            Some(index) => index,
            None => {
                self.series.push(name);
                self.series.len() - 1
            },
        };
        let paramid = 1024 + index as u64;
        record[8..16].copy_from_slice(&paramid.to_le_bytes());
        (0, Sample::decode(&record).unwrap())
    }

    fn write(&mut self, call: &WriteCall<'_>) -> u32 {
        if self.write_status == 0 {
            self.written.push(Sample::decode(&call.sample().encode()).unwrap());
        }
        self.write_status
    }
}

fn open_database(handle: usize) -> DB {
    let mut boot = Bootstrap::new();
    DB::open(&mut boot, "./db1", "db").unwrap().finish(handle).unwrap()
}

fn resolve(engine: &mut Engine, session: &mut Session<'_>, metric: &str) -> Result<u64, Error> {
    let call = session.metric_to_param_id(metric)?;
    let (status, record) = engine.resolve(&call);
    call.finish(status, &record)
}

fn write(
    engine: &mut Engine,
    session: &mut Session<'_>,
    metric: &str,
    value: f64,
) -> Result<(), Error> {
    let pending = session.write(metric, value.to_bits())?;
    let (status, record) = engine.resolve(pending.resolve_call());
    let call = pending.resolved(status, &record)?;
    let status = engine.write(&call);
    call.finish(status)
}

fn now() -> u64 {
    SystemTime::now().duration_since(UNIX_EPOCH).unwrap().as_secs()
}

#[test]
fn resolution_asks_with_a_zeroed_scalar_record() {
    let db = open_database(40);
    let mut session = db.create_session().finish(41).unwrap();
    let call = session.metric_to_param_id("cpu host=a").unwrap();
    assert_eq!(call.session(), 41);
    assert_eq!(call.series().as_bytes_with_nul(), b"cpu host=a\0");
    assert_eq!(call.series().len(), 10);
    assert_eq!(call.sample(), default_sample());
    assert_eq!(call.sample().payload.type_, PAYLOAD_FLOAT);
    assert_eq!(call.sample().payload.size as usize, call.sample().encode().len());
}

#[test]
fn resolution_returns_the_identifier_in_the_record() {
    let db = open_database(40);
    let mut session = db.create_session().finish(41).unwrap();
    let call = session.metric_to_param_id("cpu host=a").unwrap();
    let record = Sample::float(0, 0xdead_beef, 0);
    assert_eq!(call.finish(0, &record), Ok(0xdead_beef));
}

#[test]
fn failed_resolution_keeps_the_status_code() {
    let db = open_database(40);
    let mut session = db.create_session().finish(41).unwrap();
    let call = session.metric_to_param_id("cpu host=a").unwrap();
    let record = Sample::float(0, 0xdead_beef, 0);
    assert_eq!(call.finish(4, &record), Err(Error::ResolveError(4)));
}

#[test]
fn metric_with_a_null_byte_is_a_config_error() {
    let db = open_database(40);
    let mut session = db.create_session().finish(41).unwrap();
    assert_eq!(session.metric_to_param_id("cpu\0host=a").unwrap_err(), Error::ConfigError);
    assert_eq!(session.write("cpu\0host=a", 1).unwrap_err(), Error::ConfigError);
}

#[test]
fn resolving_twice_gives_the_same_identifier() {
    let mut engine = Engine::new();
    let db = open_database(40);
    let mut session = db.create_session().finish(41).unwrap();
    for metric in ["cpu host=a", "cpu host=b", "m", "temperature region=east"] {
        let first = resolve(&mut engine, &mut session, metric).unwrap();
        let second = resolve(&mut engine, &mut session, metric).unwrap();
        assert_eq!(first, second);
    }
    assert_ne!(
        resolve(&mut engine, &mut session, "cpu host=a").unwrap(),
        resolve(&mut engine, &mut session, "cpu host=b").unwrap()
    );
}

#[test]
fn write_resolves_then_writes_a_scalar_record() {
    let db = open_database(40);
    let mut session = db.create_session().finish(41).unwrap();
    let pending = session.write("cpu host=a", 1.1f64.to_bits()).unwrap();
    assert_eq!(pending.value_bits(), 1.1f64.to_bits());
    assert_eq!(pending.resolve_call().session(), 41);
    assert_eq!(pending.resolve_call().series().as_bytes_with_nul(), b"cpu host=a\0");
    assert_eq!(pending.resolve_call().sample(), default_sample());
    let record = Sample::float(0, 77, 0);
    let call = pending.resolved_at(0, &record, 1_431_648_000).unwrap();
    assert_eq!(call.session(), 41);
    assert_eq!(call.sample(), Sample::float(1_431_648_000, 77, 1.1f64.to_bits()));
    assert_eq!(call.sample().payload.type_, 0x13);
    assert_eq!(call.sample().payload.size, 32);
    assert_eq!(call.finish(0), Ok(()));
}

#[test]
fn write_is_stamped_with_the_wall_clock() {
    let db = open_database(40);
    let mut session = db.create_session().finish(41).unwrap();
    let pending = session.write("cpu host=a", 2.5f64.to_bits()).unwrap();
    let record = Sample::float(0, 78, 0);
    let before = now();
    let call = pending.resolved(0, &record).unwrap();
    let after = now();
    let sample = call.sample();
    assert!(before <= sample.timestamp && sample.timestamp <= after);
    assert!(sample.timestamp > 1_600_000_000);
    assert_eq!(sample.paramid, 78);
    assert_eq!(sample.payload.float64, 2.5f64.to_bits());
    assert_eq!(sample.payload.type_, PAYLOAD_FLOAT);
    assert_eq!(sample.payload.size as usize, sample.encode().len());
}

#[test]
fn timestamp_before_the_epoch_wraps() {
    let db = open_database(40);
    let mut session = db.create_session().finish(41).unwrap();
    let pending = session.write("cpu host=a", 0).unwrap();
    let call = pending.resolved_at(0, &Sample::float(0, 1, 0), -1).unwrap();
    assert_eq!(call.sample().timestamp, u64::MAX);
}

#[test]
fn write_stops_at_a_failed_resolution() {
    let db = open_database(40);
    let mut session = db.create_session().finish(41).unwrap();
    let pending = session.write("cpu host=a", 1).unwrap();
    let record = Sample::float(0, 77, 0);
    assert_eq!(pending.resolved(6, &record).unwrap_err(), Error::ResolveError(6));
    let pending = session.write("cpu host=a", 1).unwrap();
    assert_eq!(pending.resolved_at(6, &record, 10).unwrap_err(), Error::ResolveError(6));
}

#[test]
fn write_status_five_is_write_error_five() {
    let db = open_database(40);
    let mut session = db.create_session().finish(41).unwrap();
    let pending = session.write("cpu host=a", 1).unwrap();
    let call = pending.resolved(0, &Sample::float(0, 77, 0)).unwrap();
    let error = call.finish(5).unwrap_err();
    assert_eq!(error, Error::WriteError(5));
    assert_eq!(error.code(), Some(5));
}

#[test]
fn session_is_released_without_any_write() {
    let db = open_database(40);
    let session = db.create_session().finish(41).unwrap();
    assert_eq!(session.close().session_handle(), 41);
}

#[test]
fn session_is_released_after_a_failed_write() {
    let mut engine = Engine::new();
    engine.write_status = 5;
    let db = open_database(40);
    let mut session = db.create_session().finish(41).unwrap();
    assert_eq!(write(&mut engine, &mut session, "cpu host=a", 1.0), Err(Error::WriteError(5)));
    assert_eq!(write(&mut engine, &mut session, "", 1.0), Err(Error::ResolveError(7)));
    assert_eq!(session.handle(), 41);
    assert_eq!(session.close().session_handle(), 41);
    assert!(engine.written.is_empty());
}

#[test]
fn end_to_end_write_and_resolve_again() {
    let mut engine = Engine::new();
    let mut boot = Bootstrap::new();
    let path = "/tmp/akumuli-end-to-end";
    let open = match DB::open_or_create(&mut boot, path, &DBConfig::default(), false).unwrap() {
        Startup::Create(create) => create.finish(0).unwrap(),
        Startup::Open(_) => panic!("a fresh instance has to be created"),
    };
    let db = open.finish(0x1000).unwrap();
    let mut session = db.create_session().finish(0x2000).unwrap();

    let started = now();
    write(&mut engine, &mut session, "temperature region=east", 21.5).unwrap();
    let written = engine.written[0];
    assert_eq!(engine.written.len(), 1);
    assert_eq!(f64::from_bits(written.payload.float64), 21.5);
    assert_eq!(written.payload.type_, PAYLOAD_FLOAT);
    assert_eq!(written.payload.size, 32);
    assert!(started <= written.timestamp && written.timestamp <= now());

    let again = resolve(&mut engine, &mut session, "temperature region=east").unwrap();
    assert_eq!(again, written.paramid);

    assert_eq!(session.close().session_handle(), 0x2000);
    assert_eq!(db.close().db_handle(), 0x1000);
}
