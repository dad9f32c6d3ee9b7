//! An embedded, single-process object store: in-memory collections of
//! uniquely identified records, each transparently persisted to one backing
//! file of a pluggable storage medium.
//!
//! The pieces, leaves first: [`FileStore`] is the storage medium the cells
//! persist to, with [`MemStore`] as its verified in-memory implementation;
//! [`PackMember`] is what a record must offer to be stored, and
//! [`VecPackMember`] adds the stable identifier a collection indexes by,
//! with [`User`] and [`Car`] as ready-made record types; [`Pack`] couples
//! one record to one backing file, with [`PackGuard`] as its scoped
//! mutable-access guard; and [`VecPack`] is the id-indexed collection of
//! cells backed by one directory.

pub mod car;
pub mod codec;
pub mod error;
pub mod member;
pub mod pack;
pub mod store;
pub mod user;
pub mod vec_pack;

pub use car::Car;
pub use error::Error;
pub use error::PackError;
pub use error::PackResult;
pub use error::StorageResult;
pub use member::PackMember;
pub use member::VecPackMember;
pub use pack::lemma_round_trip;
pub use pack::Pack;
pub use pack::PackGuard;
pub use store::FileStore;
pub use store::MemStore;
pub use user::User;
pub use user::UserView;
pub use vec_pack::index_of_id;
pub use vec_pack::VecPack;
pub use vec_pack::VecPackIterMut;
