//! Sandbox execution core for a Linux package-build daemon.
//!
//! The library models the logic of a zygote-based process sandbox: the
//! framed control protocol between controller, zygote and worker, the
//! bounded buffer pool behind message serialization, user-namespace id
//! mapping, mount and pivot-root orchestration, and the child-process
//! lifetime guard.

mod buf;
mod clone;
mod daemon;
mod debug;
mod flags;
mod fs;
mod hashing;
mod io;
mod mem;
mod proc;
mod process;
mod sandbox;
mod string;

pub use clone::clone_attempt;
pub use clone::exit_signal_for;
pub use clone::fallback_plan_from;
pub use clone::interpret_limit;
pub use clone::plan_fallback;
pub use clone::should_fall_back;
pub use clone::Clone3Args;
pub use clone::CloneAttempt;
pub use clone::CloneError;
pub use clone::FallbackPlan;
pub use daemon::check_build_inputs;
pub use daemon::default_socket_path;
pub use daemon::default_store_path;
pub use daemon::is_connection_error;
pub use daemon::AppError;
pub use daemon::BindConfig;
pub use daemon::BuildError;
pub use daemon::BuildTask;
pub use daemon::Compatibility;
pub use daemon::Config;
pub use daemon::Dependency;
pub use daemon::Erro;
pub use daemon::Executable;
pub use daemon::LockDefinition;
pub use daemon::Metadata;
pub use daemon::Package;
pub use daemon::StoreConfig;
pub use debug::EscapedBuffer;
pub use debug::PrintableBuffer;
pub use flags::BindFlags;
pub use flags::CloneFlags;
pub use flags::MountFlags;
pub use flags::SandboxFlags;
pub use flags::UnmountFlags;
pub use fs::bind_plan;
pub use fs::has_existing_shared_mount;
pub use fs::pivot_plan;
pub use fs::BindMount;
pub use fs::MountEntry;
pub use fs::PivotStep;
pub use fs::makedev;
pub use fs::BindError;
pub use fs::DeviceKind;
pub use fs::MountError;
pub use fs::MountKind;
pub use fs::PivotError;
pub use fs::Syscall;
pub use fs::UnmountError;
pub use hashing::blake3_digest;
pub use hashing::StableHash;
pub use hashing::StableHashExt;
pub use hashing::StableHasher;
pub use hashing::StableHasherExt;
pub use hashing::SupportedHash;
pub use hashing::SupportedHasher;
pub use io::decode_header_at;
pub use io::frame_message;
pub use io::frame_message_into;
pub use io::read_message;
pub use io::RecvState;
pub use io::SendState;
pub use io::SocketMessageError;
pub use io::HEADER_SIZE;
pub use mem::BufferPool;
pub use mem::OwnedPooled;
pub use mem::Pool;
pub use mem::PoolBuilder;
pub use mem::PoolReturn;
pub use mem::ReturnHookedBuilder;
pub use mem::ReturnHookedPool;
pub use mem::TakeHookedBuilder;
pub use mem::TakeHookedPool;
pub use mem::Pooled;
pub use mem::DEFAULT_BUFFER_LEN;
pub use mem::DEFAULT_POOL_SLOTS;
pub use mem::MAX_SINGLE_BUFFER;
pub use mem::MAX_TOTAL_BUFFERS;
pub use proc::direct_allowed;
pub use proc::format_mappings;
pub use proc::helper_args;
pub use proc::setgroups_deny_content;
pub use proc::spec_can_direct;
pub use proc::IdMapping;
pub use proc::IdMappingTools;
pub use proc::MapAction;
pub use proc::MappingPlan;
pub use proc::SetIdsError;
pub use proc::WriteMappingsError;
pub use proc::WriteMappingsErrorKind;
pub use process::classify_signal;
pub use process::guard_step;
pub use process::phase_signal;
pub use process::GuardPhase;
pub use process::GuardStep;
pub use process::classify_wait;
pub use process::ms_of_timespec;
pub use process::ChildProcess;
pub use process::IntoExitCode;
pub use process::PollResult;
pub use process::TermSignal;
pub use process::WaitOutcome;
pub use sandbox::check_hello;
pub use sandbox::spawn_failure_ends_loop;
pub use sandbox::encode_hello;
pub use sandbox::encode_start_message;
pub use sandbox::worker_clone_flags;
pub use sandbox::zygote_dispatch;
pub use sandbox::ConnectControllerError;
pub use sandbox::ConnectZygoteError;
pub use sandbox::CreateSandboxError;
pub use sandbox::SandboxOptions;
pub use sandbox::SandboxTask;
pub use sandbox::SpawnZygoteError;
pub use sandbox::SpawnZygoteErrorKind;
pub use sandbox::WorkerError;
pub use sandbox::ZygoteAction;
pub use sandbox::CMD_HELLO;
pub use sandbox::CMD_START;
pub use string::expand;
pub use string::VarMap;
pub use string::ExpandError;
pub use string::ExpandErrorKind;
