//! Building the one-shot maintenance job: deterministic naming, worker
//! arguments, environment and settings, all as plain values the surrounding
//! process turns into a cluster object.

use vstd::prelude::*;
use vstd::string::*;

use crate::options::map_of;
use crate::options::OptionsMap;
use crate::text::lower_of;
use crate::text::to_lowercase;
use crate::types::Action;
use crate::types::DeltaTable;
use crate::types::JobSettings;
use crate::types::ResourceLimits;

verus! {

/// The environment variable through which a worker pod learns its own name.
pub const ENV_WORKER_POD_NAME: &'static str = "CONTROLLER_POD_NAME";

/// The operator-process variable naming the storage-emulator endpoint.
pub const AZURITE_BLOB_STORAGE_URL: &'static str = "AZURITE_BLOB_STORAGE_URL";

/// One environment entry of the worker container: either a field reference
/// resolved by the cluster, or a literal value.
#[derive(Clone, Debug)]
pub enum EnvEntry {
    FieldRef { name: String, field_path: String },
    Value { name: String, value: String },
}

/// Everything that defines the one-shot worker job, as plain values.
#[derive(Clone, Debug)]
pub struct JobBlueprint {
    /// `lower(resource)-lower(action)`: deterministic, so a duplicate
    /// dispatch collides with the live job instead of duplicating it.
    pub name: String,
    /// The namespace the job is created in: the settings' namespace.
    pub namespace: String,
    pub labels: OptionsMap,
    pub annotations: OptionsMap,
    pub container_name: String,
    pub image: String,
    pub args: Vec<String>,
    pub env: Vec<EnvEntry>,
    pub restart_policy: String,
    pub service_account: String,
    pub resource_requirements: Option<ResourceLimits>,
    /// The job cleans itself up this many seconds after finishing; no owner
    /// link ties it to the resource.
    pub ttl_seconds_after_finished: i32,
}

/// The value of the first storage option whose lower-cased key is the
/// emulator flag, if any.
pub open spec fn first_emulator_flag(entries: Seq<(String, String)>) -> Option<Seq<char>>
    decreases entries.len(),
{
    if entries.len() == 0 {
        None
    } else if lower_of(entries.first().0@) == "azure_storage_use_emulator"@ {
        Some(entries.first().1@)
    } else {
        first_emulator_flag(entries.drop_first())
    }
}

/// The options explicitly enable the emulator: the flag is present and its
/// lower-cased value is neither "false" nor "0".
pub open spec fn emulator_enabled(entries: Seq<(String, String)>) -> bool {
    match first_emulator_flag(entries) {
        None => false,
        Some(value) => lower_of(value) != "false"@ && lower_of(value) != "0"@,
    }
}

/// Scans the storage options for the emulator flag.
fn emulator_enabled_exec(options: &OptionsMap) -> (enabled: bool)
    ensures
        enabled == emulator_enabled(options.entries@),
{
    let flag_key = String::from_str("azure_storage_use_emulator");
    let falsy = String::from_str("false");
    let zero = String::from_str("0");
    let n = options.entries.len();
    proof {
        assert(options.entries@.skip(0) =~= options.entries@);
    }
    let mut i: usize = 0;
    while i < n
        invariant
            n == options.entries@.len(),
            i <= n,
            flag_key@ == "azure_storage_use_emulator"@,
            falsy@ == "false"@,
            zero@ == "0"@,
            emulator_enabled(options.entries@) == emulator_enabled(
                options.entries@.skip(i as int),
            ),
        decreases n - i,
    {
        proof {
            let rest = options.entries@.skip(i as int);
            assert(rest.first() == options.entries@[i as int]);
            assert(rest.drop_first() =~= options.entries@.skip(i as int + 1));
        }
        let key = to_lowercase(options.entries[i].0.as_str());
        if key == flag_key {
            let value = to_lowercase(options.entries[i].1.as_str());
            return !(value == falsy || value == zero);
        }
        i += 1;
    }
    proof {
        assert(options.entries@.skip(n as int).len() == 0);
    }
    false
}

/// Bundles optional cpu and memory caps; nothing at all when neither is
/// given.
pub fn make_resource_requirements(worker_max_cpu: Option<String>, worker_max_ram: Option<String>)
    -> (r: Option<ResourceLimits>)
    ensures
        (match r {
            None => worker_max_cpu is None && worker_max_ram is None,
            Some(limits) => (worker_max_cpu is Some || worker_max_ram is Some) && limits.cpu
                == worker_max_cpu && limits.memory == worker_max_ram,
        }),
{
    if worker_max_cpu.is_none() && worker_max_ram.is_none() {
        None
    } else {
        Some(ResourceLimits { cpu: worker_max_cpu, memory: worker_max_ram })
    }
}

/// Everything `create_job` promises of the blueprint it builds for `action`
/// on `resource`, stated once so that callers can pass the promise along.
pub open spec fn job_blueprint_ok(
    resource: DeltaTable,
    action: Action,
    namespace: String,
    settings: JobSettings,
    storage_options: OptionsMap,
    emulator_endpoint: Option<String>,
    job: JobBlueprint,
) -> bool {
    &&& job.name@ == lower_of(resource.metadata.name@) + "-"@ + action.lower_name()
    &&& job.namespace@ == settings.namespace@
    &&& job.labels@ == settings.labels@
    &&& job.labels.wf() == settings.labels.wf()
    &&& job.annotations@ == settings.annotations@
    &&& job.annotations.wf() == settings.annotations.wf()
    &&& job.container_name@ == "maintenance"@
    &&& job.image@ == settings.image@
    &&& job.restart_policy@ == "Never"@
    &&& job.service_account@ == settings.service_account@
    &&& job.resource_requirements == settings.resource_requirements
    &&& job.ttl_seconds_after_finished == 60
    &&& job.args@.len() == 8
    &&& job.args@[0]@ == "--table"@
    &&& job.args@[1]@ == resource.metadata.name@
    &&& job.args@[2]@ == "--namespace"@
    &&& job.args@[3]@ == namespace@
    &&& job.args@[4]@ == "--action"@
    &&& job.args@[5]@ == action.lower_name()
    &&& job.args@[6]@ == "--worker-name"@
    &&& job.args@[7]@ == "delta-maintenance-worker"@
    &&& job.env@.len() >= 1
    &&& job.env@[0] matches EnvEntry::FieldRef { name, field_path } && name@
        == "CONTROLLER_POD_NAME"@ && field_path@ == "metadata.name"@
    &&& job.env@.len() == (if emulator_enabled(storage_options.entries@) && emulator_endpoint
        is Some {
        2int
    } else {
        1int
    })
    &&& job.env@.len() == 2 ==> (job.env@[1] matches EnvEntry::Value { name, value } && name@
        == "AZURITE_BLOB_STORAGE_URL"@ && value@ == emulator_endpoint.unwrap()@)
}

impl DeltaTable {
    /// The table configuration handed to table creation: the additional
    /// settings, with the change-feed switch written under the table
    /// property `delta.enableChangeDataFeed` when configured.
    pub open spec fn table_config_map(&self) -> Map<Seq<char>, Seq<char>> {
        match self.spec.configuration {
            None => Map::empty(),
            Some(c) => {
                let base = map_of(
                    match c.additional_settings {
                        Some(entries) => entries@,
                        None => Seq::empty(),
                    },
                );
                match c.enable_change_feed {
                    Some(b) => base.insert(
                        "delta.enableChangeDataFeed"@,
                        if b {
                            "true"@
                        } else {
                            "false"@
                        },
                    ),
                    None => base,
                }
            },
        }
    }

    /// Collects the configured table settings.
    pub fn extract_config(&self) -> (m: OptionsMap)
        ensures
            m.wf(),
            m@ == self.table_config_map(),
    {
        let mut m = OptionsMap::new();
        if let Some(configuration) = &self.spec.configuration {
            if let Some(settings) = &configuration.additional_settings {
                let n = settings.len();
                let mut i: usize = 0;
                while i < n
                    invariant
                        m.wf(),
                        n == settings@.len(),
                        i <= n,
                        m@ == map_of(settings@.subrange(0, i as int)),
                    decreases n - i,
                {
                    proof {
                        assert(settings@.subrange(0, i as int + 1).drop_last() =~= settings@
                            .subrange(0, i as int));
                        assert(settings@.subrange(0, i as int + 1).last() == settings@[i as int]);
                    }
                    m.insert(settings[i].0.clone(), settings[i].1.clone());
                    i += 1;
                }
                proof {
                    assert(settings@.subrange(0, n as int) =~= settings@);
                }
            }
            if let Some(enable_change_feed) = configuration.enable_change_feed {
                let value = if enable_change_feed {
                    String::from_str("true")
                } else {
                    String::from_str("false")
                };
                m.insert(String::from_str("delta.enableChangeDataFeed"), value);
            }
        }
        m
    }

    /// Describes the one-shot job that performs `action` on this table: a
    /// deterministic name, the worker's arguments, the pod-name field
    /// reference, and — only when the resolved options enable the storage
    /// emulator and the operator knows an endpoint — the endpoint override.
    pub fn create_job(
        &self,
        action: Action,
        namespace: &String,
        settings: &JobSettings,
        storage_options: &OptionsMap,
        emulator_endpoint: &Option<String>,
    ) -> (job: JobBlueprint)
        ensures
            job_blueprint_ok(
                *self,
                action,
                *namespace,
                *settings,
                *storage_options,
                *emulator_endpoint,
                job,
            ),
    {
        let mut env: Vec<EnvEntry> = Vec::new();
        env.push(
            EnvEntry::FieldRef {
                name: String::from_str(ENV_WORKER_POD_NAME),
                field_path: String::from_str("metadata.name"),
            },
        );
        if emulator_enabled_exec(storage_options) {
            if let Some(url) = emulator_endpoint {
                env.push(
                    EnvEntry::Value {
                        name: String::from_str(AZURITE_BLOB_STORAGE_URL),
                        value: url.clone(),
                    },
                );
            }
        }
        let mut args: Vec<String> = Vec::new();
        args.push(String::from_str("--table"));
        args.push(self.metadata.name.clone());
        args.push(String::from_str("--namespace"));
        args.push(namespace.clone());
        args.push(String::from_str("--action"));
        args.push(String::from_str(action.as_lower_str()));
        args.push(String::from_str("--worker-name"));
        args.push(String::from_str("delta-maintenance-worker"));
        let name = to_lowercase(self.name_any().as_str()).concat("-").concat(
            action.as_lower_str(),
        );
        JobBlueprint {
            name,
            namespace: settings.namespace.clone(),
            labels: settings.labels.duplicate(),
            annotations: settings.annotations.duplicate(),
            container_name: String::from_str("maintenance"),
            image: settings.image.clone(),
            args,
            env,
            restart_policy: String::from_str("Never"),
            service_account: settings.service_account.clone(),
            resource_requirements: match &settings.resource_requirements {
                None => None,
                Some(limits) => Some(
                    ResourceLimits {
                        cpu: match &limits.cpu {
                            Some(v) => Some(v.clone()),
                            None => None,
                        },
                        memory: match &limits.memory {
                            Some(v) => Some(v.clone()),
                            None => None,
                        },
                    },
                ),
            },
            ttl_seconds_after_finished: 60,
        }
    }
}

} // verus!
