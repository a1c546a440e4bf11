pub mod platform;
pub mod probe;
pub mod source;
pub mod version;

pub use platform::platform_lookup;
pub use probe::ProbeOutcome;
pub use probe::compiler_version;
pub use probe::get_status_code;
pub use probe::read_output;
pub use source::SourceVersion;
pub use version::CompilerMode;
pub use version::Version;
