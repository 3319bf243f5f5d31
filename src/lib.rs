//! Introspection of a Windows guest from its raw physical memory: page-table
//! translation, virtual reads, kernel discovery and process/module walks.

pub mod architecture;
pub mod dataview;
pub mod error;
pub mod iter;
pub mod kernel;
pub mod list;
pub mod offsets;
pub mod phys;
pub mod pointer32;
pub mod process;
pub mod start_block;
pub mod translate;
pub mod types;
pub mod virt;
pub mod x86pae;

pub use architecture::Architecture;
pub use error::{Error, FaultKind, ReadFailure};
pub use kernel::{Win32Kernel, Win32KernelOffsets};
pub use offsets::Win32ArchOffsets;
pub use phys::{PhysicalImage, PhysicalMemory, PhysicalMemoryMetadata};
pub use pointer32::Pointer32;
pub use process::{
    ModuleAddressInfo, ModuleInfo, ProcessInfo, Win32ModuleListInfo, Win32Process,
    Win32ProcessInfo, Win32VirtualTranslate,
};
pub use start_block::StartBlock;
pub use types::Address;
pub use virt::{ReadOutcome, TranslateChunk, VirtualDma};
