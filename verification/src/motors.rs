use vstd::prelude::*;
use vstd::string::StringExecFns;

use crate::text::{dec_rep, u64_to_dec};

verus! {

/// One actuator on the multi-drop bus: the joint it drives, the servo
/// model, and the short numeric address it answers to.
#[derive(Debug, Clone, PartialEq, Eq)]
pub struct MotorConfig {
    pub joint_name: String,
    pub motor_type: String,
    pub id: u8,
}

/// One record as it appears in the registry file, before the defaults
/// are applied: every field may be absent there.
#[derive(Debug, Clone)]
pub struct MotorRecord {
    pub joint_name: Option<String>,
    pub motor_type: Option<String>,
    pub id: Option<u8>,
}

/// The two representations the registry file may use: a plain list of
/// records, or a name-to-record mapping (the mapping's own order is not
/// defined by the file format; entries arrive in whatever order the
/// caller read them).
pub enum MotorSource {
    Listed(Vec<MotorRecord>),
    Named(Vec<(String, MotorRecord)>),
}

/// A malformed registry: the record at `position` lacks a required field.
#[derive(Debug, PartialEq, Eq, Structural, Clone, Copy)]
pub enum ConfigError {
    MissingMotorType { position: usize },
    MissingBusId { position: usize },
}

/// A record that supplies both required fields.
pub open spec fn record_complete(r: MotorRecord) -> bool {
    r.motor_type is Some && r.id is Some
}

/// The error reported for the incomplete record at `position`:
/// the motor type is checked before the bus address.
pub open spec fn record_error(r: MotorRecord, position: int) -> ConfigError {
    if r.motor_type is None {
        ConfigError::MissingMotorType { position: position as usize }
    } else {
        ConfigError::MissingBusId { position: position as usize }
    }
}

/// The synthesized name `joint_<idx>` for a listed record without one.
pub open spec fn synthesized_name(idx: nat) -> Seq<char> {
    "joint_"@ + dec_rep(idx)
}

/// The joint name of the listed record at zero-based position `idx`:
/// its own name field if present, else `joint_<idx>`.
pub open spec fn listed_joint_name(r: MotorRecord, idx: nat) -> Seq<char> {
    match r.joint_name {
        Option::Some(n) => n@,
        Option::None => synthesized_name(idx),
    }
}

/// The joint name of a mapping entry: the record's own name field if
/// present, else the mapping key.
pub open spec fn named_joint_name(key: Seq<char>, r: MotorRecord) -> Seq<char> {
    match r.joint_name {
        Option::Some(n) => n@,
        Option::None => key,
    }
}

/// The loaded descriptor at `idx` matches the listed record `r`.
pub open spec fn loaded_from_listed(m: MotorConfig, r: MotorRecord, idx: nat) -> bool {
    &&& m.joint_name@ == listed_joint_name(r, idx)
    &&& m.motor_type == r.motor_type->0
    &&& m.id == r.id->0
}

/// The loaded descriptor matches the mapping entry `(key, r)`.
pub open spec fn loaded_from_named(m: MotorConfig, key: Seq<char>, r: MotorRecord) -> bool {
    &&& m.joint_name@ == named_joint_name(key, r)
    &&& m.motor_type == r.motor_type->0
    &&& m.id == r.id->0
}

/// Builds the name `joint_<idx>`.
fn synthesize_name(idx: usize) -> (s: String)
    ensures
        s@ == synthesized_name(idx as nat),
{
    let digits = u64_to_dec(idx as u64);
    let s = String::from_str("joint_").concat(digits.as_str());
    proof {
        assert(s@ =~= synthesized_name(idx as nat));
    }
    s
}

/// Turns list-form records into descriptors: order kept, missing names
/// filled in as `joint_<position>`; the first record without a motor
/// type or a bus address is rejected.
fn load_listed(records: &Vec<MotorRecord>) -> (r: Result<Vec<MotorConfig>, ConfigError>)
    ensures
        match r {
            Ok(motors) => {
                &&& forall|i: int| 0 <= i < records@.len() ==> record_complete(#[trigger] records@[i])
                &&& motors@.len() == records@.len()
                &&& forall|i: int|
                    0 <= i < records@.len() ==> loaded_from_listed(
                        #[trigger] motors@[i],
                        records@[i],
                        i as nat,
                    )
            },
            Err(e) => exists|i: int|
                {
                    &&& 0 <= i < records@.len()
                    &&& !record_complete(#[trigger] records@[i])
                    &&& forall|j: int| 0 <= j < i ==> record_complete(#[trigger] records@[j])
                    &&& e == record_error(records@[i], i)
                },
        },
{
    let mut motors: Vec<MotorConfig> = Vec::new();
    let mut i: usize = 0;
    while i < records.len()
        invariant
            i <= records@.len(),
            motors@.len() == i,
            forall|j: int| 0 <= j < i ==> record_complete(#[trigger] records@[j]),
            forall|j: int|
                0 <= j < i ==> loaded_from_listed(#[trigger] motors@[j], records@[j], j as nat),
        decreases records@.len() - i,
    {
        let rec = &records[i];
        let motor_type = match &rec.motor_type {
            Option::Some(t) => t.clone(),
            Option::None => {
                proof {
                    assert(!record_complete(records@[i as int]));
                }
                return Err(ConfigError::MissingMotorType { position: i });
            },
        };
        let id = match &rec.id {
            Option::Some(v) => *v,
            Option::None => {
                proof {
                    assert(!record_complete(records@[i as int]));
                }
                return Err(ConfigError::MissingBusId { position: i });
            },
        };
        let joint_name = match &rec.joint_name {
            Option::Some(n) => n.clone(),
            Option::None => synthesize_name(i),
        };
        motors.push(MotorConfig { joint_name, motor_type, id });
        i = i + 1;
    }
    Ok(motors)
}

/// Turns mapping-form entries into descriptors: entry order kept, a
/// record's own name preferred over its mapping key; the first record
/// without a motor type or a bus address is rejected.
fn load_named(entries: &Vec<(String, MotorRecord)>) -> (r: Result<Vec<MotorConfig>, ConfigError>)
    ensures
        match r {
            Ok(motors) => {
                &&& forall|i: int| 0 <= i < entries@.len() ==> record_complete(#[trigger] entries@[i].1)
                &&& motors@.len() == entries@.len()
                &&& forall|i: int|
                    0 <= i < entries@.len() ==> loaded_from_named(
                        #[trigger] motors@[i],
                        entries@[i].0@,
                        entries@[i].1,
                    )
            },
            Err(e) => exists|i: int|
                {
                    &&& 0 <= i < entries@.len()
                    &&& !record_complete(#[trigger] entries@[i].1)
                    &&& forall|j: int| 0 <= j < i ==> record_complete(#[trigger] entries@[j].1)
                    &&& e == record_error(entries@[i].1, i)
                },
        },
{
    let mut motors: Vec<MotorConfig> = Vec::new();
    let mut i: usize = 0;
    while i < entries.len()
        invariant
            i <= entries@.len(),
            motors@.len() == i,
            forall|j: int| 0 <= j < i ==> record_complete(#[trigger] entries@[j].1),
            forall|j: int|
                0 <= j < i ==> loaded_from_named(
                    #[trigger] motors@[j],
                    entries@[j].0@,
                    entries@[j].1,
                ),
        decreases entries@.len() - i,
    {
        let (key, rec) = &entries[i];
        let motor_type = match &rec.motor_type {
            Option::Some(t) => t.clone(),
            Option::None => {
                proof {
                    assert(!record_complete(entries@[i as int].1));
                }
                return Err(ConfigError::MissingMotorType { position: i });
            },
        };
        let id = match &rec.id {
            Option::Some(v) => *v,
            Option::None => {
                proof {
                    assert(!record_complete(entries@[i as int].1));
                }
                return Err(ConfigError::MissingBusId { position: i });
            },
        };
        let joint_name = match &rec.joint_name {
            Option::Some(n) => n.clone(),
            Option::None => key.clone(),
        };
        motors.push(MotorConfig { joint_name, motor_type, id });
        i = i + 1;
    }
    Ok(motors)
}

/// Loads the motor registry: turns the raw records into an ordered list
/// of descriptors, in the order given, filling in missing joint names
/// (`joint_<position>` in list form, the mapping key in mapping form).
/// A record without a motor type or a bus address is rejected; the error
/// names the first such record.
pub fn load_motors(source: &MotorSource) -> (r: Result<Vec<MotorConfig>, ConfigError>)
    ensures
        match r {
            Ok(motors) => match source {
                MotorSource::Listed(records) => {
                    &&& forall|i: int| 0 <= i < records@.len() ==> record_complete(#[trigger] records@[i])
                    &&& motors@.len() == records@.len()
                    &&& forall|i: int|
                        0 <= i < records@.len() ==> loaded_from_listed(
                            #[trigger] motors@[i],
                            records@[i],
                            i as nat,
                        )
                },
                MotorSource::Named(entries) => {
                    &&& forall|i: int| 0 <= i < entries@.len() ==> record_complete(#[trigger] entries@[i].1)
                    &&& motors@.len() == entries@.len()
                    &&& forall|i: int|
                        0 <= i < entries@.len() ==> loaded_from_named(
                            #[trigger] motors@[i],
                            entries@[i].0@,
                            entries@[i].1,
                        )
                },
            },
            Err(e) => match source {
                MotorSource::Listed(records) => exists|i: int|
                    {
                        &&& 0 <= i < records@.len()
                        &&& !record_complete(#[trigger] records@[i])
                        &&& forall|j: int| 0 <= j < i ==> record_complete(#[trigger] records@[j])
                        &&& e == record_error(records@[i], i)
                    },
                MotorSource::Named(entries) => exists|i: int|
                    {
                        &&& 0 <= i < entries@.len()
                        &&& !record_complete(#[trigger] entries@[i].1)
                        &&& forall|j: int| 0 <= j < i ==> record_complete(#[trigger] entries@[j].1)
                        &&& e == record_error(entries@[i].1, i)
                    },
            },
        },
{
    match source {
        MotorSource::Listed(records) => load_listed(records),
        MotorSource::Named(entries) => load_named(entries),
    }
}

/// The bus addresses of the registry, one per descriptor, in registry order.
pub fn motor_ids(motors: &Vec<MotorConfig>) -> (ids: Vec<u8>)
    ensures
        ids@ == motors@.map_values(|m: MotorConfig| m.id),
{
    let mut ids: Vec<u8> = Vec::new();
    let mut i: usize = 0;
    while i < motors.len()
        invariant
            i <= motors@.len(),
            ids@ == motors@.take(i as int).map_values(|m: MotorConfig| m.id),
        decreases motors@.len() - i,
    {
        ids.push(motors[i].id);
        proof {
            assert(motors@.take(i + 1 as int).map_values(|m: MotorConfig| m.id) =~= motors@.take(
                i as int,
            ).map_values(|m: MotorConfig| m.id).push(motors@[i as int].id));
        }
        i = i + 1;
    }
    proof {
        assert(motors@.take(motors@.len() as int) =~= motors@);
    }
    ids
}

} // verus!
