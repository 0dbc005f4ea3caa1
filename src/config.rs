//! The settings of one run and their validation.
use vstd::prelude::*;

verus! {

/// Why a run was refused or stopped before any storage work.
#[derive(Debug, Clone, Copy, PartialEq, Eq, Structural)]
pub enum CleanError {
    /// A required setting is empty, or the retention window or batch size is not positive.
    InvalidInput,
    /// The cutoff `now - retention_days` does not fit in an `i64` of milliseconds.
    CutoffOutOfRange,
    /// The limit or the offset of a batch does not fit in an `i64`.
    PageOutOfRange,
}

/// The settings of one run.
pub struct RetentionConfig {
    pub data_directory: String,
    pub db_name: String,
    pub db_user: String,
    pub db_password: String,
    pub db_host: String,
    pub db_port: String,
    pub retention_days: i64,
    pub batch_size: usize,
    pub remove_posts: bool,
    pub dry_run: bool,
}

/// The condition that `validate` checks.
pub open spec fn valid_params(
    data_directory: Seq<char>,
    db_name: Seq<char>,
    db_user: Seq<char>,
    db_host: Seq<char>,
    retention_days: int,
    batch_size: int,
) -> bool {
    &&& data_directory.len() > 0
    &&& db_name.len() > 0
    &&& db_user.len() > 0
    &&& db_host.len() > 0
    &&& retention_days > 0
    &&& batch_size > 0
}

impl RetentionConfig {
    /// Every string setting is non-empty and both counts are positive.
    pub open spec fn valid(&self) -> bool {
        &&& valid_params(
            self.data_directory@,
            self.db_name@,
            self.db_user@,
            self.db_host@,
            self.retention_days as int,
            self.batch_size as int,
        )
        &&& self.db_password@.len() > 0
        &&& self.db_port@.len() > 0
    }

    /// Checks the whole configuration before any I/O.
    pub fn check(&self) -> (r: Result<(), CleanError>)
        ensures
            r is Ok <==> self.valid(),
            r is Err ==> r == Err::<(), CleanError>(CleanError::InvalidInput),
    {
        match validate(
            self.data_directory.as_str(),
            self.db_name.as_str(),
            self.db_user.as_str(),
            self.db_host.as_str(),
            self.retention_days,
            self.batch_size,
        ) {
            Ok(()) => {
                if self.db_password.as_str().is_empty() || self.db_port.as_str().is_empty() {
                    Err(CleanError::InvalidInput)
                } else {
                    Ok(())
                }
            },
            Err(e) => Err(e),
        }
    }
}

/// Rejects empty location, database name, user or host, and a retention window
/// or batch size that is not positive.
pub fn validate(
    data_directory: &str,
    db_name: &str,
    db_user: &str,
    db_host: &str,
    retention_days: i64,
    file_batch_size: usize,
) -> (r: Result<(), CleanError>)
    ensures
        r is Ok <==> valid_params(
            data_directory@,
            db_name@,
            db_user@,
            db_host@,
            retention_days as int,
            file_batch_size as int,
        ),
        r is Err ==> r == Err::<(), CleanError>(CleanError::InvalidInput),
{
    if data_directory.is_empty() || db_name.is_empty() || db_user.is_empty() || db_host.is_empty()
        || retention_days <= 0 || file_batch_size == 0 {
        Err(CleanError::InvalidInput)
    } else {
        Ok(())
    }
}

} // verus!
