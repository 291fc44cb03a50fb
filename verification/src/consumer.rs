//! The persistence sink: the mapping of a message to a storage row, and the
//! statements that the sink issues against the storage cluster.

use vstd::prelude::*;
use crate::auth::AuthenticatedAgent;
use crate::batch::Accumulator;
use crate::datasink::{CrateDBSink, StreamProcessor};
use crate::error::ProcessingError;
use crate::handler::{Measurement, Message, Number};
use std::sync::Arc;

verus! {

/// The lowercase hexadecimal digit of a value below sixteen.
pub open spec fn hex_digit(nibble: int) -> char {
    seq!['0', '1', '2', '3', '4', '5', '6', '7', '8', '9', 'a', 'b', 'c', 'd', 'e', 'f'][nibble]
}

/// The lowercase hexadecimal rendering of bytes: two digits a byte, the
/// high half first.
pub open spec fn hex(bytes: Seq<u8>) -> Seq<char> {
    Seq::new(
        2 * bytes.len(),
        |i: int|
            if i % 2 == 0 {
                hex_digit(bytes[i / 2] as int / 16)
            } else {
                hex_digit(bytes[i / 2] as int % 16)
            },
    )
}

/// Renders bytes with `hex::encode`, which writes each byte as two
/// lowercase hexadecimal digits, the high half first.
#[verifier::external_body]
fn to_hex(bytes: &Vec<u8>) -> (text: String)
    ensures
        text@ == hex(bytes@),
{
    hex::encode(bytes)
}

/// A stored value: what a measurement's value becomes in a row.
#[derive(Debug, PartialEq)]
pub enum StoredValue {
    /// The number of a simple measurement.
    Number(Number),
    /// The numbers of a tuple measurement, in order.
    Array(Vec<Number>),
    /// The structure of a geometry measurement.
    Structure(serde_json::Value),
    /// The content digest of a binary measurement, in lowercase hexadecimal.
    Text(String),
}

/// What a stored value holds.
pub enum Rendered {
    Number(Number),
    Array(Seq<Number>),
    Structure(serde_json::Value),
    Text(Seq<char>),
}

impl View for StoredValue {
    type V = Rendered;

    open spec fn view(&self) -> Rendered {
        match *self {
            StoredValue::Number(n) => Rendered::Number(n),
            StoredValue::Array(ns) => Rendered::Array(ns@),
            StoredValue::Structure(s) => Rendered::Structure(s),
            StoredValue::Text(t) => Rendered::Text(t@),
        }
    }
}

/// The value of one sensor in a row, with its unit.
#[derive(Debug, PartialEq)]
pub struct SensorData {
    pub value: StoredValue,
    pub unit: String,
}

/// What a sensor's entry holds.
pub struct Reading {
    pub value: Rendered,
    pub unit: Seq<char>,
}

impl View for SensorData {
    type V = Reading;

    open spec fn view(&self) -> Reading {
        Reading { value: self.value@, unit: self.unit@ }
    }
}

/// The sensor values of a row, by sensor name. No name occurs twice; the
/// order of the entries carries no meaning.
#[derive(Debug)]
pub struct SensorValues {
    entries: Vec<(String, SensorData)>,
}

/// Whether entry `i` is the one for sensor `name`.
pub open spec fn is_entry(entries: Seq<(String, SensorData)>, name: Seq<char>, i: int) -> bool {
    0 <= i < entries.len() && entries[i].0@ == name
}

/// Whether no sensor name occurs twice.
pub open spec fn distinct_names(entries: Seq<(String, SensorData)>) -> bool {
    forall|i: int, j: int|
        0 <= i < j < entries.len() ==> (#[trigger] entries[i]).0@ != (#[trigger] entries[j]).0@
}

/// The mapping that entries with distinct names stand for.
pub open spec fn mapping_of(entries: Seq<(String, SensorData)>) -> Map<Seq<char>, Reading> {
    Map::new(
        |name: Seq<char>| exists|i: int| is_entry(entries, name, i),
        |name: Seq<char>| entries[choose|i: int| is_entry(entries, name, i)].1@,
    )
}

/// With distinct names, each entry is what the mapping holds under its name.
pub proof fn mapping_holds_entry(entries: Seq<(String, SensorData)>, i: int)
    requires
        distinct_names(entries),
        0 <= i < entries.len(),
    ensures
        mapping_of(entries).contains_key(entries[i].0@),
        mapping_of(entries)[entries[i].0@] == entries[i].1@,
{
    let name = entries[i].0@;
    assert(is_entry(entries, name, i));
    let j = choose|j: int| is_entry(entries, name, j);
    assert(is_entry(entries, name, j));
    if j < i {
        assert(entries[j].0@ != entries[i].0@);
    } else if i < j {
        assert(entries[i].0@ != entries[j].0@);
    }
}

impl View for SensorValues {
    type V = Map<Seq<char>, Reading>;

    closed spec fn view(&self) -> Map<Seq<char>, Reading> {
        mapping_of(self.entries@)
    }
}

impl SensorValues {
    #[verifier::type_invariant]
    spec fn well_formed(self) -> bool {
        distinct_names(self.entries@)
    }

    /// No sensor values.
    pub fn new() -> (values: SensorValues)
        ensures
            values@ == Map::<Seq<char>, Reading>::empty(),
    {
        let values = SensorValues { entries: Vec::new() };
        assert(values@ =~= Map::<Seq<char>, Reading>::empty());
        values
    }

    fn position(&self, name: &String) -> (at: Option<usize>)
        ensures
            match at {
                Some(i) => is_entry(self.entries@, name@, i as int),
                None => forall|i: int| !is_entry(self.entries@, name@, i),
            },
    {
        let mut i: usize = 0;
        while i < self.entries.len()
            invariant
                i <= self.entries@.len(),
                forall|j: int| 0 <= j < i ==> !is_entry(self.entries@, name@, j),
            decreases self.entries@.len() - i,
        {
            if self.entries[i].0 == *name {
                return Some(i);
            }
            i = i + 1;
        }
        None
    }

    /// Stores `data` under `name`, in place of what was stored under that
    /// name before.
    pub fn insert(&mut self, name: String, data: SensorData)
        ensures
            final(self)@ == old(self)@.insert(name@, data@),
    {
        proof {
            use_type_invariant(&*self);
        }
        let ghost before = self.entries@;
        let ghost key = name@;
        let ghost reading = data@;
        let at = self.position(&name);
        let mut entries: Vec<(String, SensorData)> = Vec::new();
        core::mem::swap(&mut self.entries, &mut entries);
        match at {
            Some(i) => {
                entries[i] = (name, data);
                let ghost after = entries@;
                assert(distinct_names(after)) by {
                    assert forall|a: int, b: int| 0 <= a < b < after.len() implies (
                    #[trigger] after[a]).0@ != (#[trigger] after[b]).0@ by {
                        assert(before[a].0@ != before[b].0@);
                    }
                }
                assert(mapping_of(after) =~= mapping_of(before).insert(key, reading)) by {
                    assert forall|k: Seq<char>| #[trigger]
                        mapping_of(after).contains_key(k) <==> mapping_of(before).insert(
                            key,
                            reading,
                        ).contains_key(k) by {
                        if mapping_of(after).contains_key(k) {
                            let j = choose|j: int| is_entry(after, k, j);
                            assert(is_entry(before, k, j));
                        }
                        if mapping_of(before).contains_key(k) {
                            let j = choose|j: int| is_entry(before, k, j);
                            assert(is_entry(after, k, j));
                        }
                        if k == key {
                            assert(is_entry(after, k, i as int));
                        }
                    }
                    assert forall|k: Seq<char>| #[trigger]
                        mapping_of(after).contains_key(k) implies mapping_of(after)[k]
                        == mapping_of(before).insert(key, reading)[k] by {
                        let j = choose|j: int| is_entry(after, k, j);
                        mapping_holds_entry(after, j);
                        if j != i {
                            mapping_holds_entry(before, j);
                            assert(before[j].0@ != before[i as int].0@);
                        }
                    }
                }
            },
            None => {
                entries.push((name, data));
                let ghost after = entries@;
                assert(distinct_names(after)) by {
                    assert forall|a: int, b: int| 0 <= a < b < after.len() implies (
                    #[trigger] after[a]).0@ != (#[trigger] after[b]).0@ by {
                        if b < before.len() {
                            assert(before[a].0@ != before[b].0@);
                        } else {
                            assert(!is_entry(before, key, a));
                        }
                    }
                }
                assert(mapping_of(after) =~= mapping_of(before).insert(key, reading)) by {
                    assert forall|k: Seq<char>| #[trigger]
                        mapping_of(after).contains_key(k) <==> mapping_of(before).insert(
                            key,
                            reading,
                        ).contains_key(k) by {
                        if mapping_of(after).contains_key(k) {
                            let j = choose|j: int| is_entry(after, k, j);
                            if j < before.len() {
                                assert(is_entry(before, k, j));
                            }
                        }
                        if mapping_of(before).contains_key(k) {
                            let j = choose|j: int| is_entry(before, k, j);
                            assert(is_entry(after, k, j));
                        }
                        if k == key {
                            assert(is_entry(after, k, before.len() as int));
                        }
                    }
                    assert forall|k: Seq<char>| #[trigger]
                        mapping_of(after).contains_key(k) implies mapping_of(after)[k]
                        == mapping_of(before).insert(key, reading)[k] by {
                        let j = choose|j: int| is_entry(after, k, j);
                        mapping_holds_entry(after, j);
                        if j < before.len() {
                            mapping_holds_entry(before, j);
                            assert(!is_entry(before, key, j));
                        }
                    }
                }
            },
        }
        core::mem::swap(&mut self.entries, &mut entries);
    }

    /// The value stored under `name`, if there is one.
    pub fn get(&self, name: &str) -> (data: Option<&SensorData>)
        ensures
            match data {
                Some(d) => self@.contains_key(name@) && self@[name@] == d@,
                None => !self@.contains_key(name@),
            },
    {
        proof {
            use_type_invariant(self);
        }
        let key = name.to_owned();
        match self.position(&key) {
            Some(i) => {
                proof {
                    mapping_holds_entry(self.entries@, i as int);
                }
                Some(&self.entries[i].1)
            },
            None => None,
        }
    }

    /// The entries, one for each sensor name, in no particular order.
    pub fn entries(&self) -> (entries: &Vec<(String, SensorData)>)
        ensures
            distinct_names(entries@),
            self@ == mapping_of(entries@),
    {
        proof {
            use_type_invariant(self);
        }
        &self.entries
    }
}

/// The device and the agent behind a row.
#[derive(Debug, Clone, PartialEq, Eq)]
pub struct DeviceData {
    /// The device, as the message names it.
    pub name: String,
    /// The authenticated identity that submitted the message.
    pub agent: String,
    /// The role of that identity.
    pub role: String,
}

/// One row of the store: the readings of one message.
#[derive(Debug)]
pub struct StoredRow {
    pub timestamp: i64,
    pub sensor_values: SensorValues,
    pub device_meta: DeviceData,
}

/// What a measurement is stored as, given the digest under which the blob
/// store took its bytes, if it did.
///
/// A number, a tuple and a geometry are stored as they are. A binary
/// measurement is stored as the lowercase hexadecimal digest of its bytes,
/// never as the bytes; if the blob store did not take them, the measurement
/// is not stored at all.
pub open spec fn stored(measurement: Measurement, digest: Option<Seq<u8>>) -> Option<Reading> {
    match measurement {
        Measurement::Simple { value, unit, .. } => Some(
            Reading { value: Rendered::Number(value), unit: unit@ },
        ),
        Measurement::Tuple { value, unit, .. } => Some(
            Reading { value: Rendered::Array(value@), unit: unit@ },
        ),
        Measurement::Geometry { value, unit, .. } => Some(
            Reading { value: Rendered::Structure(value), unit: unit@ },
        ),
        Measurement::Binary { unit, .. } => match digest {
            Some(d) => Some(Reading { value: Rendered::Text(hex(d)), unit: unit@ }),
            None => None,
        },
    }
}

/// The digest that the blob store returned for measurement `i`: none where
/// the upload failed, and none where nothing is recorded.
pub open spec fn digest_at(digests: Seq<Option<Vec<u8>>>, i: int) -> Option<Seq<u8>> {
    if 0 <= i < digests.len() {
        match digests[i] {
            Some(d) => Some(d@),
            None => None,
        }
    } else {
        None
    }
}

/// The sensor values of the first `n` measurements. A later measurement
/// replaces an earlier one of the same name.
pub open spec fn sensors_of(data: Seq<Measurement>, digests: Seq<Option<Vec<u8>>>, n: int) -> Map<
    Seq<char>,
    Reading,
>
    decreases n,
{
    if n <= 0 {
        Map::empty()
    } else {
        let earlier = sensors_of(data, digests, n - 1);
        match stored(data[n - 1], digest_at(digests, n - 1)) {
            Some(reading) => earlier.insert(data[n - 1].name(), reading),
            None => earlier,
        }
    }
}

/// The sensor values of a message.
pub open spec fn sensors(data: Seq<Measurement>, digests: Seq<Option<Vec<u8>>>) -> Map<
    Seq<char>,
    Reading,
> {
    sensors_of(data, digests, data.len() as int)
}

/// Whether measurement `i` of a message is stored under `name`.
pub open spec fn stores(
    data: Seq<Measurement>,
    digests: Seq<Option<Vec<u8>>>,
    name: Seq<char>,
    i: int,
) -> bool {
    0 <= i < data.len() && data[i].name() == name && stored(data[i], digest_at(digests, i))
        is Some
}

/// A row holds a sensor name only if some measurement is stored under it.
pub proof fn sensors_hold_only_stored(
    data: Seq<Measurement>,
    digests: Seq<Option<Vec<u8>>>,
    n: int,
    name: Seq<char>,
)
    requires
        n <= data.len(),
        sensors_of(data, digests, n).contains_key(name),
    ensures
        exists|i: int| i < n && stores(data, digests, name, i),
    decreases n,
{
    if n > 0 {
        if stores(data, digests, name, n - 1) {
        } else {
            sensors_hold_only_stored(data, digests, n - 1, name);
            let i = choose|i: int| i < n - 1 && stores(data, digests, name, i);
            assert(i < n && stores(data, digests, name, i));
        }
    }
}

/// A row holds, under each sensor name, what the last measurement stored
/// under that name gives.
pub proof fn sensors_hold_last_stored(
    data: Seq<Measurement>,
    digests: Seq<Option<Vec<u8>>>,
    n: int,
    i: int,
)
    requires
        i < n <= data.len(),
        stores(data, digests, data[i].name(), i),
        forall|j: int| i < j < n ==> !stores(data, digests, data[i].name(), j),
    ensures
        sensors_of(data, digests, n).contains_key(data[i].name()),
        sensors_of(data, digests, n)[data[i].name()] == stored(data[i], digest_at(digests, i))->0,
    decreases n,
{
    if i < n - 1 {
        sensors_hold_last_stored(data, digests, n - 1, i);
        assert(!stores(data, digests, data[i].name(), n - 1));
    }
}

/// Maps one measurement to its entry in a row.
pub fn entry(measurement: Measurement, digest: Option<&Vec<u8>>) -> (entry: Option<
    (String, SensorData),
>)
    ensures
        match stored(
            measurement,
            match digest {
                Some(d) => Some(d@),
                None => None,
            },
        ) {
            Some(reading) => entry matches Some((name, data)) && name@ == measurement.name()
                && data@ == reading,
            None => entry is None,
        },
{
    match measurement {
        Measurement::Simple { name, value, unit } => Some(
            (name, SensorData { value: StoredValue::Number(value), unit }),
        ),
        Measurement::Tuple { name, value, unit } => Some(
            (name, SensorData { value: StoredValue::Array(value), unit }),
        ),
        Measurement::Geometry { name, value, unit } => Some(
            (name, SensorData { value: StoredValue::Structure(value), unit }),
        ),
        Measurement::Binary { name, value: _, unit } => match digest {
            Some(d) => Some((name, SensorData { value: StoredValue::Text(to_hex(d)), unit })),
            None => None,
        },
    }
}

/// Maps a message to its row.
///
/// `digests` holds, for each measurement by position, the digest that the
/// blob store returned for its bytes; only the entries of binary
/// measurements are read. The device is the one the message names, the agent
/// and the role are those of the authenticated identity.
pub fn row(agent: &AuthenticatedAgent, message: Message, digests: &Vec<Option<Vec<u8>>>) -> (row:
    StoredRow)
    ensures
        row.timestamp == message.timestamp,
        row.sensor_values@ == sensors(message.data@, digests@),
        row.device_meta.name@ == message.meta.name@,
        row.device_meta.agent@ == agent.name@,
        row.device_meta.role@ == agent.role@,
{
    let Message { meta, data, timestamp } = message;
    let mut sensor_values = SensorValues::new();
    let count = data.len();
    let mut i: usize = 0;
    for measurement in it: data.into_iter()
        invariant
            it.seq() == data@,
            count == data@.len(),
            i == it.index(),
            sensor_values@ == sensors_of(data@, digests@, i as int),
    {
        let digest = if i < digests.len() {
            digests[i].as_ref()
        } else {
            None
        };
        match entry(measurement, digest) {
            Some((name, reading)) => {
                sensor_values.insert(name, reading);
            },
            None => {},
        }
        i = i + 1;
    }
    StoredRow {
        timestamp,
        sensor_values,
        device_meta: DeviceData {
            name: meta.name,
            agent: agent.name.clone(),
            role: agent.role.clone(),
        },
    }
}

/// The sink for sensor data: its statements, and the table that takes the
/// blobs.
pub struct SensorDataSink {
    init_statement: String,
    insert_statement: String,
    table_name: String,
}

/// What the sink maps to a row: an item of the channel, and for each of the
/// message's measurements, by position, the digest under which the blob store
/// took its bytes.
pub type Delivery = (Arc<AuthenticatedAgent>, Message, Vec<Option<Vec<u8>>>);

impl SensorDataSink {
    pub fn new(init_statement: String, insert_statement: String, table_name: String) -> (sink:
        SensorDataSink)
        ensures
            sink.init_statement() == init_statement@,
            sink.insert_statement() == insert_statement@,
            sink.table_name() == table_name@,
    {
        SensorDataSink { init_statement, insert_statement, table_name }
    }

    /// The name of the table that binary measurements are uploaded to.
    pub closed spec fn table_name(&self) -> Seq<char> {
        self.table_name@
    }

    /// The table that binary measurements are uploaded to.
    pub fn table(&self) -> (name: &str)
        ensures
            name@ == self.table_name(),
    {
        self.table_name.as_str()
    }
}

impl CrateDBSink for SensorDataSink {
    closed spec fn insert_statement(&self) -> Seq<char> {
        self.insert_statement@
    }

    closed spec fn init_statement(&self) -> Seq<char> {
        self.init_statement@
    }

    fn insert(&self) -> (statement: &str) {
        self.insert_statement.as_str()
    }

    fn init(&self) -> (statement: &str) {
        self.init_statement.as_str()
    }

    fn relay(&self, initialized: bool, bulk_size: usize) -> (start: Accumulator<StoredRow>) {
        Accumulator::new(bulk_size)
    }
}

impl StreamProcessor<Delivery, StoredRow> for SensorDataSink {
    /// The transform of the sink is the row mapping, which never fails.
    open spec fn processes(&self, input: Delivery, output: Result<StoredRow, ProcessingError>) -> bool {
        &&& output matches Ok(row)
        &&& row.timestamp == input.1.timestamp
        &&& row.sensor_values@ == sensors(input.1.data@, input.2@)
        &&& row.device_meta.name@ == input.1.meta.name@
        &&& row.device_meta.agent@ == input.0.name@
        &&& row.device_meta.role@ == input.0.role@
    }

    fn process(&self, input: Delivery) -> (output: Result<StoredRow, ProcessingError>) {
        let (agent, message, digests) = input;
        Ok(row(&agent, message, &digests))
    }
}

} // verus!
