//! Codec for the fixed-layout records that describe IPsec security
//! associations on the kernel's netlink control channel.
//!
//! A record is read from a byte slice through a length-validated buffer view
//! and written back into a caller-owned slice. Every layout is stated once as
//! a function from a record to its bytes and back, and reading is proved to
//! undo writing.

pub mod address;
pub mod buffer;
pub mod constants;
pub mod endian;
pub mod error;
pub mod user_sa_id;
pub mod user_spi_info;

pub use address::{Address, AddressBuffer, AddressBufferMut, IpAddress};
pub use constants::{AF_INET, AF_INET6, IPPROTO_COMP, XFRM_ADDRESS_LEN};
pub use endian::Endian;
pub use error::{DecodeError, EncodeError, NestedField, Record};
pub use user_sa_id::{
    UserSaId, UserSaIdBuffer, UserSaIdBufferMut, UserSaIdView, XFRM_USER_SA_ID_LEN,
};
pub use user_spi_info::{
    UserSpiInfo, UserSpiInfoBuffer, UserSpiInfoBufferMut, UserSpiInfoView, XFRM_USER_SPI_INFO_LEN,
};
