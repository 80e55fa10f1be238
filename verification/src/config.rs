//! What a caller chooses when an instance is created, and the fixed tuning
//! with which every instance is opened.

use crate::cstr::{has_nul, CBytes};
use vstd::prelude::*;
use vstd::string::StringSliceAdditionalSpecFns;

verus! {

/// Volumes of a new instance unless the caller says otherwise.
pub const DEFAULT_NUM_VOLUMES: i32 = 1;

/// Size of a volume unless the caller says otherwise.
pub const DEFAULT_PAGE_SIZE: u64 = 4096 * 1024 * 1024;

/// Suffix of a new instance unless the caller says otherwise.
pub const DEFAULT_SUFFIX: &'static str = "db";

/// How an instance is laid out on disk when it is created.
#[derive(Clone, Copy, Debug)]
pub struct DBConfig<'a> {
    /// Number of storage volumes.
    pub num_volumes: i32,
    /// Whether the space of the volumes is allocated up front.
    pub allocate: bool,
    /// Size of a volume in bytes.
    pub page_size: u64,
    /// Names the instance inside its directory.
    pub suffix: &'a str,
}

/// A `DBConfig` with its suffix as plain bytes.
pub ghost struct ConfigModel {
    pub num_volumes: i32,
    pub allocate: bool,
    pub page_size: u64,
    pub suffix: Seq<u8>,
}

impl<'a> View for DBConfig<'a> {
    type V = ConfigModel;

    open spec fn view(&self) -> ConfigModel {
        ConfigModel {
            num_volumes: self.num_volumes,
            allocate: self.allocate,
            page_size: self.page_size,
            suffix: self.suffix.spec_bytes(),
        }
    }
}

impl<'a> Default for DBConfig<'a> {
    /// One volume of the default size, allocated up front, under the suffix
    /// `db`.
    fn default() -> (config: Self)
        ensures
            config.num_volumes == DEFAULT_NUM_VOLUMES,
            config.allocate,
            config.page_size == DEFAULT_PAGE_SIZE,
            config.suffix@ == DEFAULT_SUFFIX@,
    {
        DBConfig {
            num_volumes: DEFAULT_NUM_VOLUMES,
            allocate: true,
            page_size: DEFAULT_PAGE_SIZE,
            suffix: DEFAULT_SUFFIX,
        }
    }
}

/// Entries that one volume of the input log holds.
pub const INPUT_LOG_VOLUME_SIZE: u64 = 1000;

/// Volumes of the input log that are kept.
pub const INPUT_LOG_VOLUME_NUMB: u32 = 1;

/// Concurrency hint for the input log.
pub const INPUT_LOG_CONCURRENCY: u32 = 0x0100_0000;

/// File of the input log.
pub const INPUT_LOG_PATH: &'static str = "log.log";

/// The tuning that the engine is given when an instance is opened.
#[derive(Debug)]
pub struct FineTuneParams {
    pub input_log_volume_size: u64,
    pub input_log_volume_numb: u32,
    pub input_log_concurrency: u32,
    pub input_log_path: CBytes,
}

/// A `FineTuneParams` with its text as plain bytes.
pub ghost struct FineTuneModel {
    pub input_log_volume_size: u64,
    pub input_log_volume_numb: u32,
    pub input_log_concurrency: u32,
    pub input_log_path: Seq<u8>,
}

impl View for FineTuneParams {
    type V = FineTuneModel;

    open spec fn view(&self) -> FineTuneModel {
        FineTuneModel {
            input_log_volume_size: self.input_log_volume_size,
            input_log_volume_numb: self.input_log_volume_numb,
            input_log_concurrency: self.input_log_concurrency,
            input_log_path: self.input_log_path@,
        }
    }
}

impl FineTuneParams {
    /// The tuning of every instance this crate opens.
    pub open spec fn fixed() -> FineTuneModel {
        FineTuneModel {
            input_log_volume_size: INPUT_LOG_VOLUME_SIZE,
            input_log_volume_numb: INPUT_LOG_VOLUME_NUMB,
            input_log_concurrency: INPUT_LOG_CONCURRENCY,
            input_log_path: INPUT_LOG_PATH.spec_bytes(),
        }
    }

    /// The tuning of every instance this crate opens.
    pub fn new() -> (params: FineTuneParams)
        ensures
            params@ == FineTuneParams::fixed(),
    {
        proof {
            lemma_input_log_path_bytes();
        }
        let made = CBytes::from_str(INPUT_LOG_PATH);
        FineTuneParams {
            input_log_volume_size: INPUT_LOG_VOLUME_SIZE,
            input_log_volume_numb: INPUT_LOG_VOLUME_NUMB,
            input_log_concurrency: INPUT_LOG_CONCURRENCY,
            input_log_path: made.unwrap(),
        }
    }
}

/// The bytes of the input log's file name, none of them null.
pub proof fn lemma_input_log_path_bytes()
    ensures
        INPUT_LOG_PATH.spec_bytes() == seq![0x6cu8, 0x6f, 0x67, 0x2e, 0x6c, 0x6f, 0x67],
        !has_nul(INPUT_LOG_PATH.spec_bytes()),
{
    reveal_strlit("log.log");
    vstd::string::is_ascii_spec_bytes(INPUT_LOG_PATH);
    assert(vstd::string::is_ascii(INPUT_LOG_PATH));
    assert(INPUT_LOG_PATH.spec_bytes() =~= seq![0x6cu8, 0x6f, 0x67, 0x2e, 0x6c, 0x6f, 0x67]);
}

} // verus!
