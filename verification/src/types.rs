//! The resource model: maintenance actions, configuration, status and the
//! references through which storage options are pulled in.

use vstd::prelude::*;

verus! {

/// The three maintenance actions the operator can schedule for a table.
#[derive(Clone, Copy, Debug, PartialEq, Eq, Structural)]
pub enum Action {
    Checkpoint,
    Optimize,
    Vacuum,
}

/// Which axis (elapsed time, commit distance, or either) decides that an
/// action is due.
#[derive(Clone, Copy, Debug, PartialEq, Eq, Structural)]
pub enum MaintenanceCriteria {
    Time,
    Commit,
    TimeAndCommit,
}

/// The kind of object a storage-option reference points at.
#[derive(Clone, Copy, Debug, PartialEq, Eq, Structural)]
pub enum ReferenceKind {
    ConfigMap,
    Secret,
}

impl Action {
    /// The display name as a sequence of characters.
    pub open spec fn display_name(&self) -> Seq<char> {
        match self {
            Action::Checkpoint => "Checkpoint"@,
            Action::Optimize => "Optimize"@,
            Action::Vacuum => "Vacuum"@,
        }
    }

    /// The action's display name, as it appears in event text.
    pub fn as_str(&self) -> (r: &'static str)
        ensures
            r@ == self.display_name(),
    {
        match self {
            Action::Checkpoint => "Checkpoint",
            Action::Optimize => "Optimize",
            Action::Vacuum => "Vacuum",
        }
    }

    /// The action's lower-case name, used in job names and worker arguments.
    pub fn as_lower_str(&self) -> (r: &'static str)
        ensures
            r@ == self.lower_name(),
    {
        match self {
            Action::Checkpoint => "checkpoint",
            Action::Optimize => "optimize",
            Action::Vacuum => "vacuum",
        }
    }

    /// The lower-case name as a sequence of characters.
    pub open spec fn lower_name(&self) -> Seq<char> {
        match self {
            Action::Checkpoint => "checkpoint"@,
            Action::Optimize => "optimize"@,
            Action::Vacuum => "vacuum"@,
        }
    }
}

impl ReferenceKind {
    /// The kind's display name, used in error messages.
    pub fn as_str(&self) -> (r: &'static str)
        ensures
            self is ConfigMap ==> r@ == "ConfigMap"@,
            self is Secret ==> r@ == "Secret"@,
    {
        match self {
            ReferenceKind::ConfigMap => "ConfigMap",
            ReferenceKind::Secret => "Secret",
        }
    }
}

/// A pointer to a ConfigMap or Secret whose data contributes storage options.
/// A missing object is an error unless the reference is optional.
#[derive(Clone, Debug)]
pub struct StorageOptionReference {
    pub kind: ReferenceKind,
    pub name: String,
    pub optional: Option<bool>,
}

/// Table configuration settings; anything beyond the change feed switch is
/// passed through as key/value pairs.
#[derive(Clone, Debug)]
pub struct DeltaTableConfiguration {
    pub enable_change_feed: Option<bool>,
    pub additional_settings: Option<Vec<(String, String)>>,
}

/// When a maintenance action is due: elapsed seconds since the last run, or
/// commits since the last run, or either, with `disable` overriding all.
/// Intervals are ingested as non-negative numbers; a negative configured
/// interval is rejected before it ever reaches the decision engine.
#[derive(Clone, Debug)]
pub struct DeltaTableMaintenceConfiguration {
    pub time_interval: Option<u64>,
    pub commit_interval: Option<i32>,
    pub disable: Option<bool>,
    pub criteria: Option<MaintenanceCriteria>,
}

/// Vacuum scheduling, plus the retention window handed to the table store.
#[derive(Clone, Debug)]
pub struct DeltaTableVacuumConfiguration {
    pub time_interval: Option<u64>,
    pub commit_interval: Option<i32>,
    pub disable: Option<bool>,
    pub retention_period: Option<u64>,
    pub criteria: Option<MaintenanceCriteria>,
}

/// The status block of a table resource: what was last observed and when
/// each action last ran.
#[derive(Clone, Debug)]
pub struct DeltaTableStatus {
    pub table_uri: String,
    pub schema: String,
    pub last_checkpoint_commit: Option<i64>,
    pub last_checkpoint_timestamp: Option<i64>,
    pub last_vacuum_commit: Option<i64>,
    pub last_vacuum_timestamp: Option<i64>,
    pub last_optimize_commit: Option<i64>,
    pub last_optimize_timestamp: Option<i64>,
    pub version: Option<i64>,
    pub is_healthy: Option<bool>,
}

impl Default for DeltaTableStatus {
    /// An empty status: nothing recorded yet, so every action's first
    /// evaluation is due.
    fn default() -> (r: Self)
        ensures
            r.table_uri@ == Seq::<char>::empty(),
            r.schema@ == Seq::<char>::empty(),
            r.last_checkpoint_commit is None,
            r.last_checkpoint_timestamp is None,
            r.last_vacuum_commit is None,
            r.last_vacuum_timestamp is None,
            r.last_optimize_commit is None,
            r.last_optimize_timestamp is None,
            r.version is None,
            r.is_healthy is None,
    {
        DeltaTableStatus {
            table_uri: String::new(),
            schema: String::new(),
            last_checkpoint_commit: None,
            last_checkpoint_timestamp: None,
            last_vacuum_commit: None,
            last_vacuum_timestamp: None,
            last_optimize_commit: None,
            last_optimize_timestamp: None,
            version: None,
            is_healthy: None,
        }
    }
}

/// The declared shape of a table resource.
#[derive(Clone, Debug)]
pub struct DeltaTableSpec {
    /// Name of the table
    pub name: String,
    /// Location of the table
    pub table_uri: String,
    /// Allow http uris
    pub allow_http: Option<bool>,
    /// Serialized json of the table schema
    pub schema: String,
    /// Columns to use when partitioning the table
    pub partition_columns: Vec<String>,
    /// Configuration for checkpoints
    pub checkpoint_configuration: Option<DeltaTableMaintenceConfiguration>,
    /// Configuration for optimize actions
    pub optimize_configuration: Option<DeltaTableMaintenceConfiguration>,
    /// Configuration for vacuum actions
    pub vacuum_configuration: Option<DeltaTableVacuumConfiguration>,
    /// Options used to initialize the storage backend
    pub storage_options: Option<Vec<(String, String)>>,
    /// Like `storage_options`, but coming from referenced objects
    pub storage_options_from: Option<Vec<StorageOptionReference>>,
    /// Table configuration settings
    pub configuration: Option<DeltaTableConfiguration>,
}

/// The slice of an object's metadata that reconciliation reads.
#[derive(Clone, Debug)]
pub struct ObjectMetadata {
    pub name: String,
    pub namespace: Option<String>,
    pub annotations: crate::options::OptionsMap,
    pub deletion_timestamp: Option<String>,
    pub has_finalizer: bool,
}

/// One table resource as the reconciler sees it.
#[derive(Clone, Debug)]
pub struct DeltaTable {
    pub metadata: ObjectMetadata,
    pub spec: DeltaTableSpec,
    pub status: Option<DeltaTableStatus>,
}

impl DeltaTable {
    /// The resource's name.
    pub fn name_any(&self) -> (r: &String)
        ensures
            r == &self.metadata.name,
    {
        &self.metadata.name
    }
}

/// A merge patch of the status block: only the named fields change, absent
/// fields keep their previous value, and the last patch applied wins per
/// field.
#[derive(Clone, Debug)]
pub struct StatusPatch {
    pub table_uri: Option<String>,
    pub schema: Option<String>,
    pub last_checkpoint_commit: Option<i64>,
    pub last_checkpoint_timestamp: Option<i64>,
    pub last_vacuum_commit: Option<i64>,
    pub last_vacuum_timestamp: Option<i64>,
    pub last_optimize_commit: Option<i64>,
    pub last_optimize_timestamp: Option<i64>,
    pub version: Option<i64>,
    pub is_healthy: Option<bool>,
}

impl StatusPatch {
    /// A patch that changes nothing.
    pub fn empty() -> (p: Self)
        ensures
            p.table_uri is None,
            p.schema is None,
            p.last_checkpoint_commit is None,
            p.last_checkpoint_timestamp is None,
            p.last_vacuum_commit is None,
            p.last_vacuum_timestamp is None,
            p.last_optimize_commit is None,
            p.last_optimize_timestamp is None,
            p.version is None,
            p.is_healthy is None,
    {
        StatusPatch {
            table_uri: None,
            schema: None,
            last_checkpoint_commit: None,
            last_checkpoint_timestamp: None,
            last_vacuum_commit: None,
            last_vacuum_timestamp: None,
            last_optimize_commit: None,
            last_optimize_timestamp: None,
            version: None,
            is_healthy: None,
        }
    }
}

impl DeltaTableStatus {
    /// Merge-patch application: a field named by the patch is overwritten,
    /// every other field keeps its value.
    pub fn apply(&self, p: &StatusPatch) -> (r: Self)
        ensures
            r.table_uri@ == (match p.table_uri {
                Some(v) => v@,
                None => self.table_uri@,
            }),
            r.schema@ == (match p.schema {
                Some(v) => v@,
                None => self.schema@,
            }),
            r.last_checkpoint_commit == (match p.last_checkpoint_commit {
                Some(v) => Some(v),
                None => self.last_checkpoint_commit,
            }),
            r.last_checkpoint_timestamp == (match p.last_checkpoint_timestamp {
                Some(v) => Some(v),
                None => self.last_checkpoint_timestamp,
            }),
            r.last_vacuum_commit == (match p.last_vacuum_commit {
                Some(v) => Some(v),
                None => self.last_vacuum_commit,
            }),
            r.last_vacuum_timestamp == (match p.last_vacuum_timestamp {
                Some(v) => Some(v),
                None => self.last_vacuum_timestamp,
            }),
            r.last_optimize_commit == (match p.last_optimize_commit {
                Some(v) => Some(v),
                None => self.last_optimize_commit,
            }),
            r.last_optimize_timestamp == (match p.last_optimize_timestamp {
                Some(v) => Some(v),
                None => self.last_optimize_timestamp,
            }),
            r.version == (match p.version {
                Some(v) => Some(v),
                None => self.version,
            }),
            r.is_healthy == (match p.is_healthy {
                Some(v) => Some(v),
                None => self.is_healthy,
            }),
    {
        DeltaTableStatus {
            table_uri: match &p.table_uri {
                Some(v) => v.clone(),
                None => self.table_uri.clone(),
            },
            schema: match &p.schema {
                Some(v) => v.clone(),
                None => self.schema.clone(),
            },
            last_checkpoint_commit: match p.last_checkpoint_commit {
                Some(v) => Some(v),
                None => self.last_checkpoint_commit,
            },
            last_checkpoint_timestamp: match p.last_checkpoint_timestamp {
                Some(v) => Some(v),
                None => self.last_checkpoint_timestamp,
            },
            last_vacuum_commit: match p.last_vacuum_commit {
                Some(v) => Some(v),
                None => self.last_vacuum_commit,
            },
            last_vacuum_timestamp: match p.last_vacuum_timestamp {
                Some(v) => Some(v),
                None => self.last_vacuum_timestamp,
            },
            last_optimize_commit: match p.last_optimize_commit {
                Some(v) => Some(v),
                None => self.last_optimize_commit,
            },
            last_optimize_timestamp: match p.last_optimize_timestamp {
                Some(v) => Some(v),
                None => self.last_optimize_timestamp,
            },
            version: match p.version {
                Some(v) => Some(v),
                None => self.version,
            },
            is_healthy: match p.is_healthy {
                Some(v) => Some(v),
                None => self.is_healthy,
            },
        }
    }
}

/// Process-wide settings for the one-shot maintenance jobs.
#[derive(Clone, Debug)]
pub struct JobSettings {
    pub namespace: String,
    pub image: String,
    pub labels: crate::options::OptionsMap,
    pub annotations: crate::options::OptionsMap,
    pub service_account: String,
    pub resource_requirements: Option<ResourceLimits>,
    pub resync_interval: Option<u64>,
}

/// Upper bounds for the worker container's cpu and memory.
#[derive(Clone, Debug)]
pub struct ResourceLimits {
    pub cpu: Option<String>,
    pub memory: Option<String>,
}

} // verus!
