//! Internal molecular geometry over an indexed atom list: the canonical
//! enumeration of atom pairs and triples, the symmetric bond-length matrix,
//! the bond-angle record list, and the input-boundary checks.
//!
//! Coordinates and derived quantities are carried as IEEE-754 double bit
//! patterns (`u64`), so every structural guarantee — enumeration order,
//! counts, symmetry, error conditions — is stated and proved exactly; the
//! real-arithmetic kernels that produce those values live with the caller.

pub mod angles;
pub mod counts;
pub mod error;
pub mod ion;
pub mod lengths;

pub use angles::angle_triples;
pub use angles::bond_angles;
pub use counts::pair_count;
pub use counts::triple_count;
pub use error::validate_record_count;
pub use error::GeomError;
pub use ion::Ion;
pub use lengths::all_bond_lengths;
