//! The lifecycle of a database: opening an instance, creating one, and
//! handing out sessions.
//!
//! Nothing here calls the engine. Each operation is planned as a value that
//! holds the arguments of one native call; the embedder makes the call and
//! completes the plan with what the engine returned.

use crate::bootstrap::Bootstrap;
use crate::config::{ConfigModel, DBConfig, FineTuneModel, FineTuneParams};
use crate::cstr::{has_nul, CBytes};
use crate::error::{viewed, Error, SUCCESS};
use crate::path::{join, join_paths, lemma_join_nul};
use crate::session::Session;
use vstd::prelude::*;
use vstd::string::StringSliceAdditionalSpecFns;

verus! {

/// What an `OpenCall` asks of the engine.
pub ghost struct OpenModel {
    /// Whether the sinks have to be registered before the call.
    pub register_sinks: bool,
    /// Path of the instance.
    pub path: Seq<u8>,
    /// Tuning of the instance.
    pub params: FineTuneModel,
}

/// The native call that opens an instance.
#[derive(Debug)]
pub struct OpenCall {
    register_sinks: bool,
    path: CBytes,
    params: FineTuneParams,
}

impl View for OpenCall {
    type V = OpenModel;

    closed spec fn view(&self) -> OpenModel {
        OpenModel {
            register_sinks: self.register_sinks,
            path: self.path@,
            params: self.params@,
        }
    }
}

impl OpenCall {
    /// Whether the sinks have to be registered before the call is made.
    pub fn register_sinks(&self) -> (register: bool)
        ensures
            register == self@.register_sinks,
    {
        self.register_sinks
    }

    /// Path of the instance to open.
    pub fn path(&self) -> (path: &CBytes)
        ensures
            path@ == self@.path,
    {
        &self.path
    }

    /// Tuning to open the instance with.
    pub fn params(&self) -> (params: &FineTuneParams)
        ensures
            params@ == self@.params,
    {
        &self.params
    }

    /// Takes the handle that the engine returned. A null handle means the
    /// instance could not be opened; any other handle is the database.
    pub fn finish(self, handle: usize) -> (opened: Result<DB, Error>)
        ensures
            opened is Err <==> handle == 0,
            opened matches Err(e) ==> e == Error::OpenError,
            opened matches Ok(db) ==> db.handle() == handle,
    {
        if handle == 0 {
            Err(Error::OpenError)
        } else {
            Ok(DB { handle })
        }
    }
}

/// What a `CreateCall` asks of the engine, and what follows it.
pub ghost struct CreateModel {
    /// Whether the sinks have to be registered before the call.
    pub register_sinks: bool,
    /// Suffix of the new instance.
    pub suffix: Seq<u8>,
    /// Where the metadata of the instance goes.
    pub meta_path: Seq<u8>,
    /// Where the volumes of the instance go.
    pub volume_path: Seq<u8>,
    pub num_volumes: i32,
    pub page_size: u64,
    pub allocate: bool,
    /// The call that opens the instance once it is created.
    pub next: OpenModel,
}

/// The native call that creates an instance.
#[derive(Debug)]
pub struct CreateCall {
    register_sinks: bool,
    suffix: CBytes,
    path: CBytes,
    num_volumes: i32,
    page_size: u64,
    allocate: bool,
    next: OpenCall,
}

impl View for CreateCall {
    type V = CreateModel;

    closed spec fn view(&self) -> CreateModel {
        CreateModel {
            register_sinks: self.register_sinks,
            suffix: self.suffix@,
            meta_path: self.path@,
            volume_path: self.path@,
            num_volumes: self.num_volumes,
            page_size: self.page_size,
            allocate: self.allocate,
            next: self.next@,
        }
    }
}

impl CreateCall {
    /// Whether the sinks have to be registered before the call is made.
    pub fn register_sinks(&self) -> (register: bool)
        ensures
            register == self@.register_sinks,
    {
        self.register_sinks
    }

    /// Suffix of the instance to create.
    pub fn suffix(&self) -> (suffix: &CBytes)
        ensures
            suffix@ == self@.suffix,
    {
        &self.suffix
    }

    /// Where the metadata of the instance goes.
    pub fn meta_path(&self) -> (path: &CBytes)
        ensures
            path@ == self@.meta_path,
    {
        &self.path
    }

    /// Where the volumes of the instance go.
    pub fn volume_path(&self) -> (path: &CBytes)
        ensures
            path@ == self@.volume_path,
    {
        &self.path
    }

    /// Number of volumes to create.
    pub fn num_volumes(&self) -> (n: i32)
        ensures
            n == self@.num_volumes,
    {
        self.num_volumes
    }

    /// Size of a volume in bytes.
    pub fn page_size(&self) -> (size: u64)
        ensures
            size == self@.page_size,
    {
        self.page_size
    }

    /// Whether the volumes are allocated up front.
    pub fn allocate(&self) -> (allocate: bool)
        ensures
            allocate == self@.allocate,
    {
        self.allocate
    }

    /// What a status code of the engine means for the creation planned as
    /// `call`: on success the instance is opened next, any other code is
    /// handed to the caller.
    pub open spec fn outcome(call: CreateModel, status: u32) -> Result<OpenModel, Error> {
        if status == SUCCESS {
            Ok(call.next)
        } else {
            Err(Error::CreateError(status))
        }
    }

    /// Takes the status code that the engine returned. On success the
    /// result is the call that opens the new instance.
    pub fn finish(self, status: u32) -> (next: Result<OpenCall, Error>)
        ensures
            viewed(next) == CreateCall::outcome(self@, status),
    {
        if status == SUCCESS {
            Ok(self.next)
        } else {
            Err(Error::CreateError(status))
        }
    }
}

/// What `open_or_create` asks of the engine first.
pub ghost enum StartupModel {
    Open(OpenModel),
    Create(CreateModel),
}

/// The first native call of `open_or_create`.
#[derive(Debug)]
pub enum Startup {
    /// The path exists: the instance is opened.
    Open(OpenCall),
    /// The path does not exist: the instance is created, then opened.
    Create(CreateCall),
}

impl View for Startup {
    type V = StartupModel;

    open spec fn view(&self) -> StartupModel {
        match *self {
            Startup::Open(call) => StartupModel::Open(call@),
            Startup::Create(call) => StartupModel::Create(call@),
        }
    }
}

/// The native call that makes a session of a database.
#[derive(Debug)]
pub struct SessionCall<'a> {
    db: &'a DB,
}

impl<'a> SessionCall<'a> {
    /// Handle of the database that the session is asked of.
    pub closed spec fn database(&self) -> usize {
        self.db.spec_handle()
    }

    /// Handle of the database to ask for a session. Never null.
    pub fn db_handle(&self) -> (handle: usize)
        ensures
            handle == self.database(),
            handle != 0,
    {
        self.db.handle()
    }

    /// Takes the handle that the engine returned. A null handle means there
    /// is no session; nothing else tells the caller so.
    pub fn finish(self, handle: usize) -> (made: Option<Session<'a>>)
        ensures
            made is None <==> handle == 0,
            made matches Some(session) ==> session.handle() == handle && session.database()
                == self.database(),
    {
        if handle == 0 {
            None
        } else {
            Some(Session::attach(self.db, handle))
        }
    }
}

/// The native call that releases a database.
#[derive(Debug)]
pub struct CloseCall {
    database: usize,
}

impl CloseCall {
    /// Handle of the database to release.
    pub closed spec fn database(&self) -> usize {
        self.database
    }

    /// Handle of the database to release.
    pub fn db_handle(&self) -> (handle: usize)
        ensures
            handle == self.database(),
    {
        self.database
    }
}

/// An open database: the one owner of its handle.
#[derive(Debug)]
pub struct DB {
    handle: usize,
}

impl DB {
    #[verifier::type_invariant]
    spec fn live(self) -> bool {
        self.handle != 0
    }

    /// The handle of the database.
    pub closed spec fn spec_handle(&self) -> usize {
        self.handle
    }

    /// The handle of the database. Never null.
    #[verifier::when_used_as_spec(spec_handle)]
    pub fn handle(&self) -> (handle: usize)
        ensures
            handle == self.spec_handle(),
            handle != 0,
    {
        proof {
            use_type_invariant(self);
        }
        self.handle
    }

    /// The call that opens the instance `suffix` under `path`, in a process
    /// whose sinks are `registered` or not. There is none when the path of
    /// the instance cannot be null-terminated.
    pub open spec fn open_plan(registered: bool, path: Seq<u8>, suffix: Seq<u8>) -> Result<
        OpenModel,
        Error,
    > {
        if has_nul(join(path, suffix)) {
            Err(Error::ConfigError)
        } else {
            Ok(
                OpenModel {
                    register_sinks: !registered,
                    path: join(path, suffix),
                    params: FineTuneParams::fixed(),
                },
            )
        }
    }

    /// The call that creates the instance that `config` describes under
    /// `path`, in a process whose sinks are `registered` or not. There is
    /// none when the path or the suffix cannot be null-terminated.
    pub open spec fn create_plan(registered: bool, path: Seq<u8>, config: ConfigModel) -> Result<
        CreateModel,
        Error,
    > {
        if has_nul(config.suffix) || has_nul(path) {
            Err(Error::ConfigError)
        } else {
            Ok(
                CreateModel {
                    register_sinks: !registered,
                    suffix: config.suffix,
                    meta_path: path,
                    volume_path: path,
                    num_volumes: config.num_volumes,
                    page_size: config.page_size,
                    allocate: config.allocate,
                    next: OpenModel {
                        register_sinks: false,
                        path: join(path, config.suffix),
                        params: FineTuneParams::fixed(),
                    },
                },
            )
        }
    }

    /// The first call of `open_or_create`: the one of `open` where the path
    /// exists, the one of `create` where it does not.
    pub open spec fn open_or_create_plan(
        registered: bool,
        path: Seq<u8>,
        config: ConfigModel,
        path_exists: bool,
    ) -> Result<StartupModel, Error> {
        if path_exists {
            match DB::open_plan(registered, path, config.suffix) {
                Ok(call) => Ok(StartupModel::Open(call)),
                Err(e) => Err(e),
            }
        } else {
            match DB::create_plan(registered, path, config) {
                Ok(call) => Ok(StartupModel::Create(call)),
                Err(e) => Err(e),
            }
        }
    }

    /// Plans the opening of the instance `suffix` under `path`.
    ///
    /// The instance lives at `path` joined with `suffix`. If that path holds
    /// a null byte the result is `ConfigError` and nothing has changed.
    /// Otherwise the result is the call to make, with the fixed tuning, and
    /// the sinks count as registered from now on: the call says whether
    /// they have to be registered before it is made.
    pub fn open(boot: &mut Bootstrap, path: &str, suffix: &str) -> (planned: Result<
        OpenCall,
        Error,
    >)
        ensures
            viewed(planned) == DB::open_plan(
                old(boot).registered(),
                path.spec_bytes(),
                suffix.spec_bytes(),
            ),
            final(boot).registered() == (old(boot).registered() || planned is Ok),
    {
        let joined = join_paths(path.as_bytes(), suffix.as_bytes());
        match CBytes::new(joined.as_slice()) {
            Err(e) => Err(e),
            Ok(instance) => {
                let register_sinks = boot.ensure_initialized();
                Ok(OpenCall { register_sinks, path: instance, params: FineTuneParams::new() })
            },
        }
    }

    /// Plans the creation of the instance that `config` describes under
    /// `path`.
    ///
    /// If the suffix or the path holds a null byte the result is
    /// `ConfigError` and nothing has changed. Otherwise the result is the
    /// call to make, which is followed by the call that opens the new
    /// instance, and the sinks count as registered from now on.
    pub fn create(boot: &mut Bootstrap, path: &str, config: &DBConfig<'_>) -> (planned: Result<
        CreateCall,
        Error,
    >)
        ensures
            viewed(planned) == DB::create_plan(old(boot).registered(), path.spec_bytes(), config@),
            final(boot).registered() == (old(boot).registered() || planned is Ok),
    {
        let suffix = match CBytes::from_str(config.suffix) {
            Err(e) => {
                return Err(e);
            },
            Ok(suffix) => suffix,
        };
        let directory = match CBytes::from_str(path) {
            Err(e) => {
                return Err(e);
            },
            Ok(directory) => directory,
        };
        let joined = join_paths(path.as_bytes(), config.suffix.as_bytes());
        proof {
            lemma_join_nul(path.spec_bytes(), config.suffix.spec_bytes());
        }
        let instance = CBytes::new(joined.as_slice()).unwrap();
        let register_sinks = boot.ensure_initialized();
        Ok(
            CreateCall {
                register_sinks,
                suffix,
                path: directory,
                num_volumes: config.num_volumes,
                page_size: config.page_size,
                allocate: config.allocate,
                next: OpenCall {
                    register_sinks: false,
                    path: instance,
                    params: FineTuneParams::new(),
                },
            },
        )
    }

    /// Plans the opening of an instance that is created first if it is not
    /// there. `path_exists` says whether `path` exists on disk; what lies
    /// under it is not looked at.
    pub fn open_or_create(
        boot: &mut Bootstrap,
        path: &str,
        config: &DBConfig<'_>,
        path_exists: bool,
    ) -> (planned: Result<Startup, Error>)
        ensures
            viewed(planned) == DB::open_or_create_plan(
                old(boot).registered(),
                path.spec_bytes(),
                config@,
                path_exists,
            ),
            final(boot).registered() == (old(boot).registered() || planned is Ok),
    {
        if path_exists {
            match DB::open(boot, path, config.suffix) {
                Ok(call) => Ok(Startup::Open(call)),
                Err(e) => Err(e),
            }
        } else {
            match DB::create(boot, path, config) {
                Ok(call) => Ok(Startup::Create(call)),
                Err(e) => Err(e),
            }
        }
    }

    /// Plans a new session of this database.
    pub fn create_session(&self) -> (call: SessionCall<'_>)
        ensures
            call.database() == self.handle(),
    {
        SessionCall { db: self }
    }

    /// Gives the database up. The result is the call that releases its
    /// handle; the database itself is gone.
    pub fn close(self) -> (call: CloseCall)
        ensures
            call.database() == self.handle(),
    {
        CloseCall { database: self.handle }
    }
}

/// A suffix that holds a null byte is refused whichever way the database is
/// asked for, and before any call is planned.
pub proof fn lemma_null_suffix_is_refused(
    registered: bool,
    path: Seq<u8>,
    config: ConfigModel,
    path_exists: bool,
)
    requires
        has_nul(config.suffix),
    ensures
        DB::open_plan(registered, path, config.suffix) == Err::<OpenModel, Error>(
            Error::ConfigError,
        ),
        DB::create_plan(registered, path, config) == Err::<CreateModel, Error>(
            Error::ConfigError,
        ),
        DB::open_or_create_plan(registered, path, config, path_exists) == Err::<
            StartupModel,
            Error,
        >(Error::ConfigError),
{
    lemma_join_nul(path, config.suffix);
}

/// Where the path exists `open_or_create` goes the way of `open` alone.
/// Where it does not, it goes the way of `create`, and a creation that the
/// engine reports as done is followed by the very call that `open` plans
/// for the same path and suffix once the sinks are registered; any other
/// status ends the way with a `CreateError` that carries it.
pub proof fn lemma_open_or_create_branches(
    registered: bool,
    path: Seq<u8>,
    config: ConfigModel,
    status: u32,
)
    ensures
        DB::open_or_create_plan(registered, path, config, true) == match DB::open_plan(
            registered,
            path,
            config.suffix,
        ) {
            Ok(call) => Ok(StartupModel::Open(call)),
            Err(e) => Err(e),
        },
        DB::open_or_create_plan(registered, path, config, false) == match DB::create_plan(
            registered,
            path,
            config,
        ) {
            Ok(call) => Ok(StartupModel::Create(call)),
            Err(e) => Err(e),
        },
        DB::create_plan(registered, path, config) matches Ok(call) ==> CreateCall::outcome(
            call,
            status,
        ) == if status == SUCCESS {
            DB::open_plan(true, path, config.suffix)
        } else {
            Err(Error::CreateError(status))
        },
{
    lemma_join_nul(path, config.suffix);
}

} // verus!
