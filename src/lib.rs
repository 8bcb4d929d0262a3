//! Trust decisions for outbound TLS connections and the classification of
//! failed connection attempts into one closed error taxonomy.

pub mod certs;
pub mod error;
