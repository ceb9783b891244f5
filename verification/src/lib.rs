pub mod mapper;

pub use mapper::GenePhenotypeMapping;
pub use mapper::GenePhenotypeMemoryMapper;
pub use mapper::GenePhenotypeStreamingMapper;
pub use mapper::PhenotypeRecord;
