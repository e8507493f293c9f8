//! Structural decoding of executable images held in a byte buffer: format
//! sniffing by magic bytes, and the PE/COFF headers, tables, section names and
//! resource directory tree.
pub mod aarch_opcodes_instructions;
pub mod arm_opcodes_instruction;
pub mod bytes;
pub mod decode;
pub mod elf_structure;
pub mod error;
pub mod headers;
pub mod jvm_structure;
pub mod macho_structure;
pub mod names;
pub mod opcodes_instructions;
pub mod pe_structure;
pub mod rsrc;
pub mod sections;
pub mod signature;
pub mod tables;
pub mod text;
pub mod x86_opcodes_instruction;
