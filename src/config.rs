use vstd::prelude::*;

verus! {

/// Default number of seconds between two generated blob packs of the test strategy.
pub fn default_exec_interval_secs() -> (r: u64)
    ensures
        r == 1,
{
    1
}

/// Where blob packs come from.
#[derive(Clone, Copy, Debug, PartialEq, Eq, Structural)]
pub enum Strategy {
    /// Blobs announced by events posted to an Azure Storage Queue.
    StorageQueue,
    /// Generated packs of numbered rows, at a fixed interval.
    Test,
}

/// Settings of the Storage Queue strategy.
#[derive(Clone, Debug)]
pub struct QueueConfig {
    /// Name of the queue that announces new blobs.
    pub queue_name: String,
}

/// Settings of the Azure Blob source, as far as the core reads them.
#[derive(Clone, Debug)]
pub struct AzureBlobConfig {
    /// Overrides the global log namespace setting.
    pub log_namespace: Option<bool>,
    /// Seconds between two generated packs of the test strategy.
    pub exec_interval_secs: u64,
    /// How blob packs are discovered.
    pub strategy: Strategy,
    /// Settings of the Storage Queue strategy.
    pub queue: Option<QueueConfig>,
    /// Connection string of the storage account.
    pub connection_string: Option<String>,
    /// Name of the storage account.
    pub storage_account: Option<String>,
    /// Blob endpoint override, used with `storage_account`.
    pub endpoint: Option<String>,
    /// Name of the blob container.
    pub container_name: String,
    /// Whether end-to-end acknowledgements are requested.
    pub acknowledgements: bool,
}

/// Why a configuration was refused.
#[derive(Clone, Copy, Debug, PartialEq, Eq, Structural)]
pub enum ConfigError {
    /// The storage queue strategy was chosen without a queue name.
    QueueNotSet,
    /// Neither a storage account nor a connection string was given.
    AccountNotSet,
    /// No container name was given.
    ContainerNotSet,
    /// The test strategy was given an interval of zero seconds.
    ZeroInterval,
}

impl ConfigError {
    /// The text of the message shown for this error.
    pub open spec fn message_spec(&self) -> Seq<char> {
        match self {
            ConfigError::QueueNotSet => "Azure event grid queue must be set."@,
            ConfigError::AccountNotSet => "Azure Storage Account or Connection String must be set."@,
            ConfigError::ContainerNotSet => "Azure Container must be set."@,
            ConfigError::ZeroInterval => "exec_interval_secs must be greater than 0"@,
        }
    }

    /// The message shown for this error.
    pub fn message(&self) -> (r: String)
        ensures
            r@ == self.message_spec(),
    {
        match self {
            ConfigError::QueueNotSet => "Azure event grid queue must be set.".to_string(),
            ConfigError::AccountNotSet => "Azure Storage Account or Connection String must be set.".to_string(),
            ConfigError::ContainerNotSet => "Azure Container must be set.".to_string(),
            ConfigError::ZeroInterval => "exec_interval_secs must be greater than 0".to_string(),
        }
    }
}

/// An optional string that is absent or empty.
pub open spec fn blank(s: Option<String>) -> bool {
    match s {
        Some(v) => v@.len() == 0,
        None => true,
    }
}

impl AzureBlobConfig {
    /// The outcome of validating this configuration.
    pub open spec fn validation(&self) -> Result<(), ConfigError> {
        match self.strategy {
            Strategy::StorageQueue => {
                if self.queue is None || self.queue->Some_0.queue_name@.len() == 0 {
                    Err(ConfigError::QueueNotSet)
                } else if blank(self.storage_account) && blank(self.connection_string) {
                    Err(ConfigError::AccountNotSet)
                } else if self.container_name@.len() == 0 {
                    Err(ConfigError::ContainerNotSet)
                } else {
                    Ok(())
                }
            },
            Strategy::Test => {
                if self.exec_interval_secs == 0 {
                    Err(ConfigError::ZeroInterval)
                } else {
                    Ok(())
                }
            },
        }
    }

    /// Checks the settings that the chosen strategy needs.
    pub fn validate(&self) -> (r: Result<(), ConfigError>)
        ensures
            r == self.validation(),
    {
        match self.strategy {
            Strategy::StorageQueue => {
                let queue_ok = match &self.queue {
                    Some(q) => !q.queue_name.as_str().is_empty(),
                    None => false,
                };
                if !queue_ok {
                    return Err(ConfigError::QueueNotSet);
                }
                if is_blank(&self.storage_account) && is_blank(&self.connection_string) {
                    return Err(ConfigError::AccountNotSet);
                }
                if self.container_name.as_str().is_empty() {
                    return Err(ConfigError::ContainerNotSet);
                }
            },
            Strategy::Test => {
                if self.exec_interval_secs == 0 {
                    return Err(ConfigError::ZeroInterval);
                }
            },
        }
        Ok(())
    }

    /// Sources of this kind take part in end-to-end acknowledgements.
    pub fn can_acknowledge(&self) -> (r: bool)
        ensures
            r,
    {
        true
    }
}

fn is_blank(s: &Option<String>) -> (r: bool)
    ensures
        r == blank(*s),
{
    match s {
        Some(v) => v.as_str().is_empty(),
        None => true,
    }
}

} // verus!
