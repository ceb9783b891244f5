pub mod base;
pub mod index;
pub mod laws;
pub mod memory_mapper;
pub mod streaming_mapper;

pub use base::GenePhenotypeMapping;
pub use base::MapError;
pub use base::PhenotypeRecord;
pub use base::RawRow;
pub use base::RowPolicy;
pub use base::StringField;
pub use base::TermId;
pub use base::TermIdField;
pub use memory_mapper::GenePhenotypeMemoryMapper;
pub use streaming_mapper::GenePhenotypeStreamingMapper;
