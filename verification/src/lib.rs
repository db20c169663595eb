//! Reading of MPK asset archives: the index format, the codecs that entries
//! are stored under, recovery of script file names from marshalled code
//! objects, content sniffing for entries without a usable name, and the flat
//! resource repository records that accompany an archive.

pub mod bytes;
pub mod codec;
pub mod extract;
pub mod index;
pub mod repository;
pub mod script;
pub mod sniff;
pub mod text;
