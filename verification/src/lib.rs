//! Planning and bookkeeping for injecting managed .NET assemblies into
//! processes that host Mono: target resolution, profiles, remembered
//! injections with the guard that protects ejection, namespace inference
//! from assembly metadata, and the state machines of the command-line and
//! graphical frontends.
pub mod bounds;
pub mod cli;
pub mod clock;
pub mod dotnet;
pub mod error;
pub mod gui;
pub mod handle;
pub mod names;
pub mod operations;
pub mod process;
pub mod profiles;
pub mod runtime;
pub mod seqs;
pub mod state;
pub mod text;
